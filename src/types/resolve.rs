//! Joining indices into names: strings, type descriptors, and the
//! user-facing views of classes, prototypes, methods and fields.

use vstd::prelude::*;

use crate::parser::{FileParser, ParseError};
use crate::types::file::{file_at, file_ok, refs_ok, DexFile};
use crate::types::id::{
    absolute_indices, field_deltas, method_deltas, prefix_sum, ClassDataItem, ClassDefItem, EncodedField, EncodedMethod, FieldIdItem, MethodIdItem,
    ProtoIdItem, TypeIdItem,
};
use crate::types::refs::NO_INDEX;

verus! {

/// The string at position `idx` of the string table.
pub open spec fn string_of(f: &DexFile, idx: int) -> Option<Seq<char>> {
    if 0 <= idx < f.string_data@.len() {
        Some(f.string_data@[idx].string@)
    } else {
        None
    }
}

/// The descriptor of the type at position `idx` of the type table.
pub open spec fn descriptor_of(f: &DexFile, idx: int) -> Option<Seq<char>> {
    if 0 <= idx < f.type_ids@.len() {
        string_of(f, f.type_ids@[idx].descriptor_idx.idx as int)
    } else {
        None
    }
}

/// `r` holds the looked-up string `v`, or fails as out of bounds when the
/// lookup finds nothing.
pub open spec fn looked_up(r: Result<String, ParseError>, v: Option<Seq<char>>) -> bool {
    match v {
        Some(s) => r is Ok && r->Ok_0@ == s,
        None => r == Err::<String, ParseError>(ParseError::OutOfBounds),
    }
}

impl DexFile {
    /// The string at position `idx` of the string table.
    pub fn string(&self, idx: usize) -> (r: Result<String, ParseError>)
        ensures
            looked_up(r, string_of(self, idx as int)),
    {
        if idx < self.string_data.len() {
            Ok(self.string_data[idx].string.clone())
        } else {
            Err(ParseError::OutOfBounds)
        }
    }

    /// The descriptor of the type at position `idx` of the type table.
    pub fn type_descriptor(&self, idx: usize) -> (r: Result<String, ParseError>)
        ensures
            looked_up(r, descriptor_of(self, idx as int)),
    {
        if idx < self.type_ids.len() {
            self.type_ids[idx].descriptor(self)
        } else {
            Err(ParseError::OutOfBounds)
        }
    }
}

impl TypeIdItem {
    /// The type's descriptor string.
    pub fn descriptor(&self, f: &DexFile) -> (r: Result<String, ParseError>)
        ensures
            looked_up(r, string_of(f, self.descriptor_idx.idx as int)),
    {
        f.string(self.descriptor_idx.idx)
    }
}

impl ProtoIdItem {
    /// The prototype's short descriptor.
    pub fn shorty(&self, f: &DexFile) -> (r: Result<String, ParseError>)
        ensures
            looked_up(r, string_of(f, self.shorty_idx.idx as int)),
    {
        f.string(self.shorty_idx.idx)
    }

    /// The descriptor of the return type.
    pub fn return_type(&self, f: &DexFile) -> (r: Result<String, ParseError>)
        ensures
            looked_up(r, descriptor_of(f, self.return_type_idx.idx as int)),
    {
        f.type_descriptor(self.return_type_idx.idx)
    }
}

impl MethodIdItem {
    /// The descriptor of the defining class.
    pub fn class(&self, f: &DexFile) -> (r: Result<String, ParseError>)
        ensures
            looked_up(r, descriptor_of(f, self.class_idx.idx as int)),
    {
        f.type_descriptor(self.class_idx.idx)
    }

    /// The prototype entry.
    pub fn proto<'a>(&self, f: &'a DexFile) -> (r: Result<&'a ProtoIdItem, ParseError>)
        ensures
            self.proto_idx.idx < f.proto_ids@.len() ==> r == Ok::<&ProtoIdItem, ParseError>(&f.proto_ids@[self.proto_idx.idx as int]),
            self.proto_idx.idx >= f.proto_ids@.len() ==> r == Err::<&ProtoIdItem, ParseError>(ParseError::OutOfBounds),
    {
        if self.proto_idx.idx < f.proto_ids.len() {
            Ok(&f.proto_ids[self.proto_idx.idx])
        } else {
            Err(ParseError::OutOfBounds)
        }
    }

    /// The method's name.
    pub fn name(&self, f: &DexFile) -> (r: Result<String, ParseError>)
        ensures
            looked_up(r, string_of(f, self.name_idx.idx as int)),
    {
        f.string(self.name_idx.idx)
    }
}

impl ClassDefItem {
    /// The descriptor of the class.
    pub fn class_type(&self, f: &DexFile) -> (r: Result<String, ParseError>)
        ensures
            looked_up(r, descriptor_of(f, self.class_idx.idx as int)),
    {
        f.type_descriptor(self.class_idx.idx)
    }

    /// The access flags.
    pub fn access_flags(&self) -> (r: u32)
        ensures
            r == self.access_flags,
    {
        self.access_flags
    }

    /// The descriptor of the superclass.
    pub fn superclass_type(&self, f: &DexFile) -> (r: Result<String, ParseError>)
        ensures
            looked_up(r, descriptor_of(f, self.superclass_idx.idx as int)),
    {
        f.type_descriptor(self.superclass_idx.idx)
    }

    /// The name of the source file, absent for the "no index" sentinel.
    pub fn source_file(&self, f: &DexFile) -> (r: Result<Option<String>, ParseError>)
        ensures
            self.source_file_idx.idx == NO_INDEX ==> r == Ok::<Option<String>, ParseError>(None),
            self.source_file_idx.idx != NO_INDEX ==> match string_of(f, self.source_file_idx.idx as int) {
                Some(s) => (r matches Ok(Some(v)) && v@ == s),
                None => r == Err::<Option<String>, ParseError>(ParseError::OutOfBounds),
            },
    {
        match self.source_file_idx.get() {
            None => Ok(None),
            Some(idx) => match f.string(idx) {
                Ok(s) => Ok(Some(s)),
                Err(e) => Err(e),
            },
        }
    }
}

/// A prototype with its strings looked up.
#[derive(Debug, Clone, PartialEq, Eq)]
pub struct Proto {
    pub shorty_descriptor: String,
    pub return_type: String,
}

/// A method reference with its strings looked up.
#[derive(Debug, Clone, PartialEq, Eq)]
pub struct MethodId {
    pub name: String,
    pub class: String,
    pub proto: Proto,
}

/// A field reference with its strings looked up.
#[derive(Debug, Clone, PartialEq, Eq)]
pub struct FieldId {
    pub class: usize,
    pub typ: String,
    pub name: String,
}

/// A class definition with its strings looked up.
#[derive(Debug, Clone, PartialEq, Eq)]
pub struct Class {
    pub name: String,
    pub access_flags: u32,
    pub superclass: String,
    pub source_file: Option<String>,
}

/// `p` is the prototype `item` of `f`; it exists when every string does.
pub open spec fn proto_of(f: &DexFile, item: ProtoIdItem, p: Proto) -> bool {
    &&& Some(p.shorty_descriptor@) == string_of(f, item.shorty_idx.idx as int)
    &&& Some(p.return_type@) == descriptor_of(f, item.return_type_idx.idx as int)
}

/// Every string of the prototype `item` exists.
pub open spec fn proto_ok(f: &DexFile, item: ProtoIdItem) -> bool {
    string_of(f, item.shorty_idx.idx as int) is Some && descriptor_of(f, item.return_type_idx.idx as int) is Some
}

/// Every string of the method reference `item` exists.
pub open spec fn method_ok(f: &DexFile, item: MethodIdItem) -> bool {
    &&& descriptor_of(f, item.class_idx.idx as int) is Some
    &&& string_of(f, item.name_idx.idx as int) is Some
    &&& item.proto_idx.idx < f.proto_ids@.len()
    &&& proto_ok(f, f.proto_ids@[item.proto_idx.idx as int])
}

/// `m` is the method reference `item` of `f`.
pub open spec fn method_of(f: &DexFile, item: MethodIdItem, m: MethodId) -> bool {
    &&& Some(m.class@) == descriptor_of(f, item.class_idx.idx as int)
    &&& Some(m.name@) == string_of(f, item.name_idx.idx as int)
    &&& proto_of(f, f.proto_ids@[item.proto_idx.idx as int], m.proto)
}

/// Every string of the class `item` exists.
pub open spec fn class_ok(f: &DexFile, item: ClassDefItem) -> bool {
    &&& descriptor_of(f, item.class_idx.idx as int) is Some
    &&& descriptor_of(f, item.superclass_idx.idx as int) is Some
    &&& (item.source_file_idx.idx == NO_INDEX || string_of(f, item.source_file_idx.idx as int) is Some)
}

/// `c` is the class `item` of `f`.
pub open spec fn class_of(f: &DexFile, item: ClassDefItem, c: Class) -> bool {
    &&& Some(c.name@) == descriptor_of(f, item.class_idx.idx as int)
    &&& c.access_flags == item.access_flags
    &&& Some(c.superclass@) == descriptor_of(f, item.superclass_idx.idx as int)
    &&& (item.source_file_idx.idx == NO_INDEX ==> c.source_file is None)
    &&& (item.source_file_idx.idx != NO_INDEX ==> (c.source_file matches Some(s) && Some(s@)
        == string_of(f, item.source_file_idx.idx as int)))
}

impl Proto {
    /// Looks up the strings of the prototype `item`.
    pub fn resolve_from(item: &ProtoIdItem, f: &DexFile) -> (r: Result<Proto, ParseError>)
        ensures
            r is Ok <==> proto_ok(f, *item),
            r matches Ok(p) ==> proto_of(f, *item, p),
    {
        let shorty_descriptor = match item.shorty(f) {
            Ok(s) => s,
            Err(e) => {
                return Err(e);
            },
        };
        let return_type = match item.return_type(f) {
            Ok(s) => s,
            Err(e) => {
                return Err(e);
            },
        };
        Ok(Proto { shorty_descriptor, return_type })
    }
}

impl MethodId {
    /// Looks up the strings of the method reference `item`.
    pub fn resolve_from(item: &MethodIdItem, f: &DexFile) -> (r: Result<MethodId, ParseError>)
        ensures
            r is Ok <==> method_ok(f, *item),
            r matches Ok(m) ==> method_of(f, *item, m),
    {
        let class = match item.class(f) {
            Ok(s) => s,
            Err(e) => {
                return Err(e);
            },
        };
        let name = match item.name(f) {
            Ok(s) => s,
            Err(e) => {
                return Err(e);
            },
        };
        let proto_item = match item.proto(f) {
            Ok(p) => p,
            Err(e) => {
                return Err(e);
            },
        };
        let proto = match Proto::resolve_from(proto_item, f) {
            Ok(p) => p,
            Err(e) => {
                return Err(e);
            },
        };
        Ok(MethodId { name, class, proto })
    }
}

impl FieldId {
    /// Looks up the strings of the field reference `item`.
    pub fn resolve_from(item: &FieldIdItem, f: &DexFile) -> (r: Result<FieldId, ParseError>)
        ensures
            r is Ok <==> descriptor_of(f, item.type_idx.idx as int) is Some && string_of(f, item.name_idx.idx as int) is Some,
            r matches Ok(v) ==> v.class == item.class_idx.idx && Some(v.typ@) == descriptor_of(f, item.type_idx.idx as int)
                && Some(v.name@) == string_of(f, item.name_idx.idx as int),
    {
        let typ = match f.type_descriptor(item.type_idx.idx) {
            Ok(s) => s,
            Err(e) => {
                return Err(e);
            },
        };
        let name = match f.string(item.name_idx.idx) {
            Ok(s) => s,
            Err(e) => {
                return Err(e);
            },
        };
        Ok(FieldId { class: item.class_idx.idx, typ, name })
    }
}

impl Class {
    /// Looks up the strings of the class `item`.
    pub fn resolve_from(item: &ClassDefItem, f: &DexFile) -> (r: Result<Class, ParseError>)
        ensures
            r is Ok <==> class_ok(f, *item),
            r matches Ok(c) ==> class_of(f, *item, c),
    {
        let name = match item.class_type(f) {
            Ok(s) => s,
            Err(e) => {
                return Err(e);
            },
        };
        let superclass = match item.superclass_type(f) {
            Ok(s) => s,
            Err(e) => {
                return Err(e);
            },
        };
        let source_file = match item.source_file(f) {
            Ok(s) => s,
            Err(e) => {
                return Err(e);
            },
        };
        Ok(Class { name, access_flags: item.access_flags(), superclass, source_file })
    }
}

/// A field of a class with its strings looked up.
#[derive(Debug, Clone, PartialEq, Eq)]
pub struct Field {
    pub id: FieldId,
    pub access_flags: u32,
}

/// A method of a class with its strings looked up.
#[derive(Debug, Clone, PartialEq, Eq)]
pub struct Method {
    pub id: MethodId,
    pub access_flags: u32,
}

/// The fields and methods of a class with their strings looked up.
#[derive(Debug, Clone, PartialEq, Eq)]
pub struct ClassData {
    pub static_fields: Vec<Field>,
    pub instance_fields: Vec<Field>,
    pub direct_methods: Vec<Method>,
    pub virtual_methods: Vec<Method>,
}

/// Every string of the field at position `idx` of the field table exists.
pub open spec fn field_ok(f: &DexFile, idx: int) -> bool {
    0 <= idx < f.field_ids@.len() && descriptor_of(f, f.field_ids@[idx].type_idx.idx as int) is Some
        && string_of(f, f.field_ids@[idx].name_idx.idx as int) is Some
}

/// `v` is the field at position `idx` of the field table, with `access_flags`.
pub open spec fn field_of(f: &DexFile, idx: int, access_flags: u32, v: Field) -> bool {
    let item = f.field_ids@[idx];
    &&& v.access_flags == access_flags
    &&& v.id.class == item.class_idx.idx
    &&& Some(v.id.typ@) == descriptor_of(f, item.type_idx.idx as int)
    &&& Some(v.id.name@) == string_of(f, item.name_idx.idx as int)
}

/// Every field of the list `l` resolves: the absolute indices fit 32 bits
/// and every field's strings exist.
pub open spec fn fields_ok(f: &DexFile, l: Seq<EncodedField>) -> bool {
    &&& prefix_sum(field_deltas(l), l.len() as int) <= u32::MAX
    &&& forall|i: int| 0 <= i < l.len() ==> #[trigger] field_ok(f, prefix_sum(field_deltas(l), i + 1))
}

/// `vs` are the fields of the list `l`.
pub open spec fn fields_of(f: &DexFile, l: Seq<EncodedField>, vs: Seq<Field>) -> bool {
    &&& vs.len() == l.len()
    &&& forall|i: int| 0 <= i < l.len() ==> field_of(f, prefix_sum(field_deltas(l), i + 1), l[i].access_flags.0, #[trigger] vs[i])
}

/// Every string of the method at position `idx` of the method table exists.
pub open spec fn method_at_ok(f: &DexFile, idx: int) -> bool {
    0 <= idx < f.method_ids@.len() && method_ok(f, f.method_ids@[idx])
}

/// `v` is the method at position `idx` of the method table, with `access_flags`.
pub open spec fn method_at(f: &DexFile, idx: int, access_flags: u32, v: Method) -> bool {
    v.access_flags == access_flags && method_of(f, f.method_ids@[idx], v.id)
}

/// Every method of the list `l` resolves.
pub open spec fn methods_ok(f: &DexFile, l: Seq<EncodedMethod>) -> bool {
    &&& prefix_sum(method_deltas(l), l.len() as int) <= u32::MAX
    &&& forall|i: int| 0 <= i < l.len() ==> #[trigger] method_at_ok(f, prefix_sum(method_deltas(l), i + 1))
}

/// `vs` are the methods of the list `l`.
pub open spec fn methods_of(f: &DexFile, l: Seq<EncodedMethod>, vs: Seq<Method>) -> bool {
    &&& vs.len() == l.len()
    &&& forall|i: int| 0 <= i < l.len() ==> method_at(f, prefix_sum(method_deltas(l), i + 1), l[i].access_flags.0, #[trigger] vs[i])
}

/// Resolves a list of fields whose indices are delta-encoded.
fn resolve_fields(l: &Vec<EncodedField>, f: &DexFile) -> (r: Result<Vec<Field>, ParseError>)
    ensures
        r is Ok <==> fields_ok(f, l@),
        r matches Ok(vs) ==> fields_of(f, l@, vs@),
{
    let mut deltas: Vec<u32> = Vec::new();
    let mut i: usize = 0;
    while i < l.len()
        invariant
            i <= l@.len(),
            deltas@ == field_deltas(l@).subrange(0, i as int),
        decreases l@.len() - i,
    {
        deltas.push(l[i].field_idx_diff.0);
        i = i + 1;
        assert(deltas@ =~= field_deltas(l@).subrange(0, i as int));
    }
    assert(deltas@ =~= field_deltas(l@));
    let idx = match absolute_indices(&deltas) {
        Some(v) => v,
        None => {
            return Err(ParseError::OutOfBounds);
        },
    };
    let mut out: Vec<Field> = Vec::new();
    let mut i: usize = 0;
    while i < l.len()
        invariant
            i <= l@.len(),
            idx@.len() == l@.len(),
            deltas@ == field_deltas(l@),
            forall|j: int| 0 <= j < idx@.len() ==> #[trigger] idx@[j] == prefix_sum(deltas@, j + 1),
            prefix_sum(field_deltas(l@), l@.len() as int) <= u32::MAX,
            out@.len() == i,
            forall|j: int| 0 <= j < i ==> #[trigger] field_ok(f, prefix_sum(field_deltas(l@), j + 1)),
            forall|j: int| 0 <= j < i ==> field_of(f, prefix_sum(field_deltas(l@), j + 1), l@[j].access_flags.0, #[trigger] out@[j]),
        decreases l@.len() - i,
    {
        let k = idx[i] as usize;
        assert(k == prefix_sum(field_deltas(l@), i + 1));
        if k >= f.field_ids.len() {
            assert(!field_ok(f, prefix_sum(field_deltas(l@), i + 1)));
            return Err(ParseError::OutOfBounds);
        }
        let id = match FieldId::resolve_from(&f.field_ids[k], f) {
            Ok(v) => v,
            Err(e) => {
                assert(!field_ok(f, prefix_sum(field_deltas(l@), i + 1)));
                return Err(e);
            },
        };
        out.push(Field { id, access_flags: l[i].access_flags.0 });
        i = i + 1;
    }
    Ok(out)
}

/// Resolves a list of methods whose indices are delta-encoded.
fn resolve_methods(l: &Vec<EncodedMethod>, f: &DexFile) -> (r: Result<Vec<Method>, ParseError>)
    ensures
        r is Ok <==> methods_ok(f, l@),
        r matches Ok(vs) ==> methods_of(f, l@, vs@),
{
    let mut deltas: Vec<u32> = Vec::new();
    let mut i: usize = 0;
    while i < l.len()
        invariant
            i <= l@.len(),
            deltas@ == method_deltas(l@).subrange(0, i as int),
        decreases l@.len() - i,
    {
        deltas.push(l[i].method_idx_diff.0);
        i = i + 1;
        assert(deltas@ =~= method_deltas(l@).subrange(0, i as int));
    }
    assert(deltas@ =~= method_deltas(l@));
    let idx = match absolute_indices(&deltas) {
        Some(v) => v,
        None => {
            return Err(ParseError::OutOfBounds);
        },
    };
    let mut out: Vec<Method> = Vec::new();
    let mut i: usize = 0;
    while i < l.len()
        invariant
            i <= l@.len(),
            idx@.len() == l@.len(),
            deltas@ == method_deltas(l@),
            forall|j: int| 0 <= j < idx@.len() ==> #[trigger] idx@[j] == prefix_sum(deltas@, j + 1),
            prefix_sum(method_deltas(l@), l@.len() as int) <= u32::MAX,
            out@.len() == i,
            forall|j: int| 0 <= j < i ==> #[trigger] method_at_ok(f, prefix_sum(method_deltas(l@), j + 1)),
            forall|j: int| 0 <= j < i ==> method_at(f, prefix_sum(method_deltas(l@), j + 1), l@[j].access_flags.0, #[trigger] out@[j]),
        decreases l@.len() - i,
    {
        let k = idx[i] as usize;
        assert(k == prefix_sum(method_deltas(l@), i + 1));
        if k >= f.method_ids.len() {
            assert(!method_at_ok(f, prefix_sum(method_deltas(l@), i + 1)));
            return Err(ParseError::OutOfBounds);
        }
        let id = match MethodId::resolve_from(&f.method_ids[k], f) {
            Ok(v) => v,
            Err(e) => {
                assert(!method_at_ok(f, prefix_sum(method_deltas(l@), i + 1)));
                return Err(e);
            },
        };
        out.push(Method { id, access_flags: l[i].access_flags.0 });
        i = i + 1;
    }
    Ok(out)
}

impl ClassData {
    /// Looks up the fields and methods of the class data `item`, turning the
    /// index differences of each list into absolute indices.
    pub fn resolve_from(item: &ClassDataItem, f: &DexFile) -> (r: Result<ClassData, ParseError>)
        ensures
            r is Ok <==> fields_ok(f, item.static_fields@) && fields_ok(f, item.instance_fields@)
                && methods_ok(f, item.direct_methods@) && methods_ok(f, item.virtual_methods@),
            r matches Ok(c) ==> fields_of(f, item.static_fields@, c.static_fields@)
                && fields_of(f, item.instance_fields@, c.instance_fields@)
                && methods_of(f, item.direct_methods@, c.direct_methods@)
                && methods_of(f, item.virtual_methods@, c.virtual_methods@),
    {
        let static_fields = match resolve_fields(&item.static_fields, f) {
            Ok(v) => v,
            Err(e) => {
                return Err(e);
            },
        };
        let instance_fields = match resolve_fields(&item.instance_fields, f) {
            Ok(v) => v,
            Err(e) => {
                return Err(e);
            },
        };
        let direct_methods = match resolve_methods(&item.direct_methods, f) {
            Ok(v) => v,
            Err(e) => {
                return Err(e);
            },
        };
        let virtual_methods = match resolve_methods(&item.virtual_methods, f) {
            Ok(v) => v,
            Err(e) => {
                return Err(e);
            },
        };
        Ok(ClassData { static_fields, instance_fields, direct_methods, virtual_methods })
    }
}

/// A decoded file, with its entries looked up on demand.
pub struct Resolver {
    pub dex_file: DexFile,
}

impl Resolver {
    /// Decodes the whole file behind `parser`.
    pub fn new(parser: FileParser) -> (r: Result<Resolver, ParseError>)
        requires
            parser.wf(),
        ensures
            r is Ok ==> file_ok(parser.mode(), parser.bytes()),
            file_ok(parser.mode(), parser.bytes()) ==> forall|g: DexFile| #[trigger] file_at(parser.mode(), parser.bytes(), g)
                ==> (r is Ok <==> refs_ok(&g)),
            r matches Ok(res) ==> file_at(parser.mode(), parser.bytes(), res.dex_file) && refs_ok(&res.dex_file),
    {
        let mut parser = parser;
        match parser.parse_file() {
            Ok(dex_file) => Ok(Resolver { dex_file }),
            Err(e) => Err(e),
        }
    }

    /// The decoded file.
    pub fn dex_file(&self) -> (r: &DexFile)
        ensures
            r == &self.dex_file,
    {
        &self.dex_file
    }

    /// The descriptor of every defined class, in table order.
    pub fn class_names(&self) -> (r: Result<Vec<String>, ParseError>)
        ensures
            r is Ok <==> forall|i: int| 0 <= i < self.dex_file.class_defs@.len()
                ==> descriptor_of(&self.dex_file, #[trigger] self.dex_file.class_defs@[i].class_idx.idx as int) is Some,
            r matches Ok(v) ==> v@.len() == self.dex_file.class_defs@.len() && forall|i: int| 0 <= i < v@.len()
                ==> Some(#[trigger] v@[i]@) == descriptor_of(&self.dex_file, self.dex_file.class_defs@[i].class_idx.idx as int),
    {
        let f = &self.dex_file;
        let mut out: Vec<String> = Vec::new();
        let mut i: usize = 0;
        while i < f.class_defs.len()
            invariant
                i <= f.class_defs@.len(),
                out@.len() == i,
                f == &self.dex_file,
                forall|j: int| 0 <= j < i ==> descriptor_of(f, #[trigger] f.class_defs@[j].class_idx.idx as int) is Some,
                forall|j: int| 0 <= j < i ==> Some(#[trigger] out@[j]@) == descriptor_of(f, f.class_defs@[j].class_idx.idx as int),
            decreases f.class_defs@.len() - i,
        {
            match f.class_defs[i].class_type(f) {
                Ok(s) => out.push(s),
                Err(e) => {
                    return Err(e);
                },
            }
            i = i + 1;
        }
        Ok(out)
    }

    /// Every defined class with its strings looked up, in table order.
    pub fn classes(&self) -> (r: Result<Vec<Class>, ParseError>)
        ensures
            r is Ok <==> forall|i: int| 0 <= i < self.dex_file.class_defs@.len()
                ==> class_ok(&self.dex_file, #[trigger] self.dex_file.class_defs@[i]),
            r matches Ok(v) ==> v@.len() == self.dex_file.class_defs@.len() && forall|i: int| 0 <= i < v@.len()
                ==> class_of(&self.dex_file, self.dex_file.class_defs@[i], #[trigger] v@[i]),
    {
        let f = &self.dex_file;
        let mut out: Vec<Class> = Vec::new();
        let mut i: usize = 0;
        while i < f.class_defs.len()
            invariant
                i <= f.class_defs@.len(),
                out@.len() == i,
                f == &self.dex_file,
                forall|j: int| 0 <= j < i ==> class_ok(f, #[trigger] f.class_defs@[j]),
                forall|j: int| 0 <= j < i ==> class_of(f, f.class_defs@[j], #[trigger] out@[j]),
            decreases f.class_defs@.len() - i,
        {
            match Class::resolve_from(&f.class_defs[i], f) {
                Ok(c) => out.push(c),
                Err(e) => {
                    return Err(e);
                },
            }
            i = i + 1;
        }
        Ok(out)
    }

    /// Every method reference with its strings looked up, in table order.
    pub fn methods(&self) -> (r: Result<Vec<MethodId>, ParseError>)
        ensures
            r is Ok <==> forall|i: int| 0 <= i < self.dex_file.method_ids@.len()
                ==> method_ok(&self.dex_file, #[trigger] self.dex_file.method_ids@[i]),
            r matches Ok(v) ==> v@.len() == self.dex_file.method_ids@.len() && forall|i: int| 0 <= i < v@.len()
                ==> method_of(&self.dex_file, self.dex_file.method_ids@[i], #[trigger] v@[i]),
    {
        let f = &self.dex_file;
        let mut out: Vec<MethodId> = Vec::new();
        let mut i: usize = 0;
        while i < f.method_ids.len()
            invariant
                i <= f.method_ids@.len(),
                out@.len() == i,
                f == &self.dex_file,
                forall|j: int| 0 <= j < i ==> method_ok(f, #[trigger] f.method_ids@[j]),
                forall|j: int| 0 <= j < i ==> method_of(f, f.method_ids@[j], #[trigger] out@[j]),
            decreases f.method_ids@.len() - i,
        {
            match MethodId::resolve_from(&f.method_ids[i], f) {
                Ok(m) => out.push(m),
                Err(e) => {
                    return Err(e);
                },
            }
            i = i + 1;
        }
        Ok(out)
    }
}

} // verus!
