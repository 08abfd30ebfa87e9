use vstd::prelude::*;

verus! {

/// Primitive kind of a component field, as a schema declares it.
///
/// Floating-point fields are declared with `F32` / `F64` tags; their
/// instances are carried as raw bit patterns (see `Value`), so the layer
/// itself performs no float arithmetic.
#[derive(Clone, Copy, PartialEq, Eq, Structural, Debug)]
pub enum TypeTag {
    I8,
    I16,
    I32,
    I64,
    U8,
    U16,
    U32,
    U64,
    F32,
    F64,
    Bool,
    Str,
    Bytes,
}

/// One field value of a component instance.
///
/// `F32Bits` / `F64Bits` hold the IEEE-754 bit pattern of a float field;
/// converting to and from the float type is the caller's business.
#[derive(Debug, PartialEq, Clone)]
pub enum Value {
    I8(i8),
    I16(i16),
    I32(i32),
    I64(i64),
    U8(u8),
    U16(u16),
    U32(u32),
    U64(u64),
    F32Bits(u32),
    F64Bits(u64),
    Bool(bool),
    Str(String),
    Bytes(Vec<u8>),
}

/// Mathematical shape of a field value: strings and buffers as sequences.
pub enum ValueModel {
    I8(i8),
    I16(i16),
    I32(i32),
    I64(i64),
    U8(u8),
    U16(u16),
    U32(u32),
    U64(u64),
    F32Bits(u32),
    F64Bits(u64),
    Bool(bool),
    Str(Seq<char>),
    Bytes(Seq<u8>),
}

impl View for Value {
    type V = ValueModel;

    open spec fn view(&self) -> ValueModel {
        match self {
            Value::I8(x) => ValueModel::I8(*x),
            Value::I16(x) => ValueModel::I16(*x),
            Value::I32(x) => ValueModel::I32(*x),
            Value::I64(x) => ValueModel::I64(*x),
            Value::U8(x) => ValueModel::U8(*x),
            Value::U16(x) => ValueModel::U16(*x),
            Value::U32(x) => ValueModel::U32(*x),
            Value::U64(x) => ValueModel::U64(*x),
            Value::F32Bits(x) => ValueModel::F32Bits(*x),
            Value::F64Bits(x) => ValueModel::F64Bits(*x),
            Value::Bool(x) => ValueModel::Bool(*x),
            Value::Str(s) => ValueModel::Str(s@),
            Value::Bytes(b) => ValueModel::Bytes(b@),
        }
    }
}

impl DeepView for Value {
    type V = ValueModel;

    open spec fn deep_view(&self) -> ValueModel {
        self.view()
    }
}

/// The tag a field value answers to.
pub open spec fn tag_of(v: ValueModel) -> TypeTag {
    match v {
        ValueModel::I8(_) => TypeTag::I8,
        ValueModel::I16(_) => TypeTag::I16,
        ValueModel::I32(_) => TypeTag::I32,
        ValueModel::I64(_) => TypeTag::I64,
        ValueModel::U8(_) => TypeTag::U8,
        ValueModel::U16(_) => TypeTag::U16,
        ValueModel::U32(_) => TypeTag::U32,
        ValueModel::U64(_) => TypeTag::U64,
        ValueModel::F32Bits(_) => TypeTag::F32,
        ValueModel::F64Bits(_) => TypeTag::F64,
        ValueModel::Bool(_) => TypeTag::Bool,
        ValueModel::Str(_) => TypeTag::Str,
        ValueModel::Bytes(_) => TypeTag::Bytes,
    }
}

impl Value {
    /// Returns the tag of this value.
    pub fn tag(&self) -> (t: TypeTag)
        ensures
            t == tag_of(self@),
    {
        match self {
            Value::I8(_) => TypeTag::I8,
            Value::I16(_) => TypeTag::I16,
            Value::I32(_) => TypeTag::I32,
            Value::I64(_) => TypeTag::I64,
            Value::U8(_) => TypeTag::U8,
            Value::U16(_) => TypeTag::U16,
            Value::U32(_) => TypeTag::U32,
            Value::U64(_) => TypeTag::U64,
            Value::F32Bits(_) => TypeTag::F32,
            Value::F64Bits(_) => TypeTag::F64,
            Value::Bool(_) => TypeTag::Bool,
            Value::Str(_) => TypeTag::Str,
            Value::Bytes(_) => TypeTag::Bytes,
        }
    }

    /// An owned copy whose mathematical value is the same.
    pub fn dup(&self) -> (r: Value)
        ensures
            r@ == self@,
    {
        match self {
            Value::I8(x) => Value::I8(*x),
            Value::I16(x) => Value::I16(*x),
            Value::I32(x) => Value::I32(*x),
            Value::I64(x) => Value::I64(*x),
            Value::U8(x) => Value::U8(*x),
            Value::U16(x) => Value::U16(*x),
            Value::U32(x) => Value::U32(*x),
            Value::U64(x) => Value::U64(*x),
            Value::F32Bits(x) => Value::F32Bits(*x),
            Value::F64Bits(x) => Value::F64Bits(*x),
            Value::Bool(x) => Value::Bool(*x),
            Value::Str(s) => Value::Str(s.clone()),
            Value::Bytes(b) => Value::Bytes(b.clone()),
        }
    }
}

/// The zero/empty value of each primitive kind; fresh attachments start here.
pub open spec fn default_model(t: TypeTag) -> ValueModel {
    match t {
        TypeTag::I8 => ValueModel::I8(0),
        TypeTag::I16 => ValueModel::I16(0),
        TypeTag::I32 => ValueModel::I32(0),
        TypeTag::I64 => ValueModel::I64(0),
        TypeTag::U8 => ValueModel::U8(0),
        TypeTag::U16 => ValueModel::U16(0),
        TypeTag::U32 => ValueModel::U32(0),
        TypeTag::U64 => ValueModel::U64(0),
        TypeTag::F32 => ValueModel::F32Bits(0),
        TypeTag::F64 => ValueModel::F64Bits(0),
        TypeTag::Bool => ValueModel::Bool(false),
        TypeTag::Str => ValueModel::Str(Seq::empty()),
        TypeTag::Bytes => ValueModel::Bytes(Seq::empty()),
    }
}

/// The zero-initialized instance of a whole field list.
pub open spec fn default_cell(tags: Seq<TypeTag>) -> Seq<ValueModel> {
    Seq::new(tags.len(), |i: int| default_model(tags[i]))
}

/// A sequence of values conforms to a field-tag list: same length, and each
/// value answers to the declared tag.
pub open spec fn values_match(vals: Seq<ValueModel>, tags: Seq<TypeTag>) -> bool {
    &&& vals.len() == tags.len()
    &&& forall|j: int| 0 <= j < vals.len() ==> tag_of(#[trigger] vals[j]) == tags[j]
}

/// The default cell always conforms to its own tag list.
pub proof fn lemma_default_cell_matches(tags: Seq<TypeTag>)
    ensures
        values_match(default_cell(tags), tags),
{
    assert forall|j: int| 0 <= j < default_cell(tags).len() implies tag_of(
        #[trigger] default_cell(tags)[j],
    ) == tags[j] by {
        assert(default_cell(tags)[j] == default_model(tags[j]));
    }
}

/// Builds the zero-initialized value of one field.
pub fn default_value(t: TypeTag) -> (v: Value)
    ensures
        v@ == default_model(t),
{
    match t {
        TypeTag::I8 => Value::I8(0),
        TypeTag::I16 => Value::I16(0),
        TypeTag::I32 => Value::I32(0),
        TypeTag::I64 => Value::I64(0),
        TypeTag::U8 => Value::U8(0),
        TypeTag::U16 => Value::U16(0),
        TypeTag::U32 => Value::U32(0),
        TypeTag::U64 => Value::U64(0),
        TypeTag::F32 => Value::F32Bits(0),
        TypeTag::F64 => Value::F64Bits(0),
        TypeTag::Bool => Value::Bool(false),
        TypeTag::Str => Value::Str(String::new()),
        TypeTag::Bytes => Value::Bytes(Vec::new()),
    }
}

/// Builds the zero-initialized instance of a whole field list.
pub fn default_values(tags: &Vec<TypeTag>) -> (vs: Vec<Value>)
    ensures
        vs.deep_view() == default_cell(tags@),
{
    let mut vs: Vec<Value> = Vec::new();
    let mut i: usize = 0;
    while i < tags.len()
        invariant
            i <= tags.len(),
            vs@.len() == i,
            forall|k: int| 0 <= k < i ==> (#[trigger] vs.deep_view()[k]) == default_model(tags@[k]),
        decreases tags.len() - i,
    {
        let ghost pre = vs;
        vs.push(default_value(tags[i]));
        proof {
            assert forall|k: int| 0 <= k <= i implies (#[trigger] vs.deep_view()[k])
                == default_model(tags@[k]) by {
                assert(vs.deep_view()[k] == vs@[k].deep_view());
                if k < i {
                    assert(vs@[k] == pre@[k]);
                    assert(pre.deep_view()[k] == pre@[k].deep_view());
                }
            }
        }
        i = i + 1;
    }
    proof {
        assert(vs.deep_view() =~= default_cell(tags@));
    }
    vs
}

/// Copies a whole cell, preserving its mathematical value.
pub fn dup_values(vs: &Vec<Value>) -> (r: Vec<Value>)
    ensures
        r.deep_view() == vs.deep_view(),
{
    let mut r: Vec<Value> = Vec::new();
    let mut i: usize = 0;
    while i < vs.len()
        invariant
            i <= vs.len(),
            r@.len() == i,
            forall|k: int| 0 <= k < i ==> (#[trigger] r.deep_view()[k]) == vs.deep_view()[k],
        decreases vs.len() - i,
    {
        let ghost pre = r;
        r.push(vs[i].dup());
        proof {
            assert forall|k: int| 0 <= k <= i implies (#[trigger] r.deep_view()[k])
                == vs.deep_view()[k] by {
                assert(r.deep_view()[k] == r@[k].deep_view());
                assert(vs.deep_view()[k] == vs@[k].deep_view());
                if k < i {
                    assert(r@[k] == pre@[k]);
                    assert(pre.deep_view()[k] == pre@[k].deep_view());
                }
            }
        }
        i = i + 1;
    }
    proof {
        assert(r.deep_view() =~= vs.deep_view());
    }
    r
}

} // verus!
