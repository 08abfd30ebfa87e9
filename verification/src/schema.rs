use vstd::prelude::*;

use crate::errors::EcsError;
use crate::value::TypeTag;

verus! {

/// One declared field of a component: a name and a primitive kind.
#[derive(Debug)]
pub struct FieldDef {
    pub name: String,
    pub tag: TypeTag,
}

/// A declarative component definition: a name plus ordered typed fields.
/// An empty field list declares a tag (marker-only, zero-size) component.
#[derive(Debug)]
pub struct ComponentDef {
    pub name: String,
    pub fields: Vec<FieldDef>,
}

/// A host-observable layout descriptor: the component name, the field names
/// in declaration order, the field type tags in the same order, and the
/// tag/data classification.
#[derive(Debug)]
pub struct Descriptor {
    pub name: String,
    pub field_names: Vec<String>,
    pub field_tags: Vec<TypeTag>,
    pub is_tag: bool,
}

impl Descriptor {
    /// Field-name and field-tag lists run in step, and the tag classification
    /// says exactly that the field list is empty.
    pub open spec fn wf(self) -> bool {
        &&& self.field_names@.len() == self.field_tags@.len()
        &&& self.is_tag <==> self.field_tags@.len() == 0
    }

    /// This descriptor carries precisely the content of the given definition.
    pub open spec fn matches_def(self, d: ComponentDef) -> bool {
        &&& self.name@ == d.name@
        &&& self.field_names@.len() == d.fields@.len()
        &&& self.field_tags@.len() == d.fields@.len()
        &&& forall|i: int|
            0 <= i < d.fields@.len() ==> (#[trigger] self.field_names@[i])@ == d.fields@[i].name@
        &&& forall|i: int| 0 <= i < d.fields@.len() ==> self.field_tags@[i] == d.fields@[i].tag
        &&& self.is_tag <==> d.fields@.len() == 0
    }
}

/// The declared field kinds of one definition, in order.
pub open spec fn def_tags(d: ComponentDef) -> Seq<TypeTag> {
    d.fields@.map(|i: int, f: FieldDef| f.tag)
}

/// Builds one field declaration.
pub fn field(name: &str, tag: TypeTag) -> (f: FieldDef)
    ensures
        f.name@ == name@,
        f.tag == tag,
{
    FieldDef { name: name.to_owned(), tag }
}

/// Builds one component definition from its name and field list.
pub fn component_def(name: &str, fields: Vec<FieldDef>) -> (d: ComponentDef)
    ensures
        d.name@ == name@,
        d.fields == fields,
{
    ComponentDef { name: name.to_owned(), fields }
}

/// Builds a tag component definition: a marker with no fields.
pub fn tag_def(name: &str) -> (d: ComponentDef)
    ensures
        d.name@ == name@,
        d.fields@.len() == 0,
{
    ComponentDef { name: name.to_owned(), fields: Vec::new() }
}

/// Builds the descriptor of one definition: the pure transform from the
/// declarative record to the layout the world is told about.
pub fn descriptor_of(def: &ComponentDef) -> (d: Descriptor)
    ensures
        d.wf(),
        d.matches_def(*def),
{
    let mut field_names: Vec<String> = Vec::new();
    let mut field_tags: Vec<TypeTag> = Vec::new();
    let mut i: usize = 0;
    while i < def.fields.len()
        invariant
            i <= def.fields@.len(),
            field_names@.len() == i,
            field_tags@.len() == i,
            forall|k: int| 0 <= k < i ==> (#[trigger] field_names@[k])@ == def.fields@[k].name@,
            forall|k: int| 0 <= k < i ==> field_tags@[k] == def.fields@[k].tag,
        decreases def.fields@.len() - i,
    {
        field_names.push(def.fields[i].name.clone());
        field_tags.push(def.fields[i].tag);
        i = i + 1;
    }
    let is_tag = field_tags.len() == 0;
    Descriptor { name: def.name.clone(), field_names, field_tags, is_tag }
}

/// Whether the definition at position `j` reuses a name that already occurs
/// earlier in the batch.
pub open spec fn dup_at(defs: Seq<ComponentDef>, j: int) -> bool {
    exists|i: int| 0 <= i < j && (#[trigger] defs[i].name)@ == defs[j].name@
}

/// Whether any two definitions of the batch share a name.
pub open spec fn has_dup(defs: Seq<ComponentDef>) -> bool {
    exists|j: int| 0 <= j < defs.len() && #[trigger] dup_at(defs, j)
}

/// Turns a batch of definitions into one descriptor per definition, in order.
///
/// Fails with `SchemaCollision` — carrying the name of the first definition
/// that reuses an earlier name — if two definitions in the batch share a
/// name; succeeds exactly otherwise. No other effect: registration is a
/// distinct, later step.
pub fn build_descriptors(defs: &Vec<ComponentDef>) -> (r: Result<Vec<Descriptor>, EcsError>)
    ensures
        r is Ok <==> !has_dup(defs@),
        r matches Ok(ds) ==> {
            &&& ds@.len() == defs@.len()
            &&& forall|i: int| 0 <= i < defs@.len() ==> (#[trigger] ds@[i]).wf()
            &&& forall|i: int| 0 <= i < defs@.len() ==> (#[trigger] ds@[i]).matches_def(defs@[i])
        },
        r matches Err(e) ==> e matches EcsError::SchemaCollision(n) && exists|j: int|
            {
                &&& 0 <= j < defs@.len()
                &&& #[trigger] dup_at(defs@, j)
                &&& forall|k: int| 0 <= k < j ==> !dup_at(defs@, k)
                &&& n@ == defs@[j].name@
            },
{
    let mut ds: Vec<Descriptor> = Vec::new();
    let mut j: usize = 0;
    while j < defs.len()
        invariant
            j <= defs@.len(),
            ds@.len() == j,
            forall|k: int| 0 <= k < j ==> (#[trigger] ds@[k]).wf(),
            forall|k: int| 0 <= k < j ==> (#[trigger] ds@[k]).matches_def(defs@[k]),
            forall|k: int| 0 <= k < j ==> !dup_at(defs@, k),
        decreases defs@.len() - j,
    {
        let mut i: usize = 0;
        while i < j
            invariant
                i <= j,
                j < defs@.len(),
                forall|k: int| 0 <= k < i ==> (#[trigger] defs@[k].name)@ != defs@[j as int].name@,
                forall|k: int| 0 <= k < j ==> !dup_at(defs@, k),
            decreases j - i,
        {
            if defs[i].name == defs[j].name {
                proof {
                    assert(defs@[i as int].name@ == defs@[j as int].name@);
                    assert(dup_at(defs@, j as int));
                    assert(has_dup(defs@));
                }
                return Err(EcsError::SchemaCollision(defs[j].name.clone()));
            }
            i = i + 1;
        }
        proof {
            assert(!dup_at(defs@, j as int));
        }
        ds.push(descriptor_of(&defs[j]));
        j = j + 1;
    }
    Ok(ds)
}

} // verus!
