//! Instance records and their binary form.
//!
//! A record is packed as its 32-bit words, each little-endian, in the order
//! of the vertex-buffer layout: rotation, position, scale, then the
//! parameter values.
use vstd::prelude::*;
use vstd::bytes::{
    lemma_auto_spec_u32_to_from_le_bytes, spec_u32_from_le_bytes, spec_u32_to_le_bytes,
    u32_from_le_bytes, u32_to_le_bytes,
};
use vstd::slice::slice_subrange;
use crate::helpers::all_supported;
use crate::layout::{params_size, spec_layout, VertexAttribute};
use crate::shader_params::{values_match, FieldSpec, ParamValue};

verus! {

/// The bytes of a sequence of words, each word little-endian.
pub open spec fn words_bytes(words: Seq<u32>) -> Seq<u8>
    decreases words.len(),
{
    if words.len() == 0 {
        Seq::empty()
    } else {
        words_bytes(words.drop_last()) + spec_u32_to_le_bytes(words.last())
    }
}

/// The words of a sequence of parameter values, in order.
pub open spec fn values_words(values: Seq<ParamValue>) -> Seq<u32>
    decreases values.len(),
{
    if values.len() == 0 {
        Seq::empty()
    } else {
        values_words(values.drop_last()) + values.last().spec_words()
    }
}

/// The word that `bytes` holds at byte `offset`.
pub open spec fn read_word(bytes: Seq<u8>, offset: int) -> u32 {
    spec_u32_from_le_bytes(bytes.subrange(offset, offset + 4))
}

/// The `count` words that `bytes` holds from byte `offset` on.
pub open spec fn read_words(bytes: Seq<u8>, offset: int, count: nat) -> Seq<u32> {
    Seq::new(count, |i: int| read_word(bytes, offset + 4 * i))
}

impl ParamValue {
    /// Appends the words of the value to `out`.
    pub fn push_words(self, out: &mut Vec<u32>)
        ensures
            final(out)@ == old(out)@ + self.spec_words(),
    {
        match self {
            ParamValue::F32(x) => {
                out.push(x);
            },
            ParamValue::U32(x) => {
                out.push(x);
            },
            ParamValue::I32(x) => {
                out.push(#[verifier::truncate] (x as u32));
            },
            ParamValue::Vec2(x, y) => {
                out.push(x);
                out.push(y);
            },
            ParamValue::Vec3(x, y, z) => {
                out.push(x);
                out.push(y);
                out.push(z);
            },
            ParamValue::Vec4(x, y, z, w) => {
                out.push(x);
                out.push(y);
                out.push(z);
                out.push(w);
            },
            ParamValue::LinearRgba(r, g, b, a) => {
                out.push(r);
                out.push(g);
                out.push(b);
                out.push(a);
            },
        }
    }
}

/// One shape instance of one frame: what the GPU reads for one quad.
///
/// Floats are held as their bit patterns.
#[derive(Debug)]
pub struct ShapeVertex {
    /// Cosine and sine of the rotation angle.
    pub rotation: (u32, u32),
    /// World position: x, y and z.
    pub position: (u32, u32, u32),
    /// Uniform scale.
    pub scale: u32,
    /// Values of the schema's fields, in schema order.
    pub params: Vec<ParamValue>,
}

/// An instance record in the model.
pub struct VertexSpec {
    pub rotation: (u32, u32),
    pub position: (u32, u32, u32),
    pub scale: u32,
    pub params: Seq<ParamValue>,
}

impl View for ShapeVertex {
    type V = VertexSpec;

    open spec fn view(&self) -> VertexSpec {
        VertexSpec {
            rotation: self.rotation,
            position: self.position,
            scale: self.scale,
            params: self.params@,
        }
    }
}

/// The view of each of `vertices`.
pub open spec fn vertices_view(vertices: Seq<ShapeVertex>) -> Seq<VertexSpec> {
    vertices.map_values(|v: ShapeVertex| v@)
}

impl Clone for ShapeVertex {
    fn clone(&self) -> (copy: ShapeVertex)
        ensures
            copy@ == self@,
    {
        let mut params: Vec<ParamValue> = Vec::new();
        let mut index: usize = 0;
        while index < self.params.len()
            invariant
                index <= self.params.len(),
                params@ == self.params@.take(index as int),
            decreases self.params.len() - index,
        {
            params.push(self.params[index]);
            index += 1;
        }
        assert(self.params@.take(index as int) =~= self.params@);
        ShapeVertex {
            rotation: self.rotation,
            position: self.position,
            scale: self.scale,
            params,
        }
    }
}

impl ShapeVertex {
    /// The record of an instance with the given rotation, position, scale
    /// and parameter values.
    pub fn new(
        rotation: (u32, u32),
        position: (u32, u32, u32),
        scale: u32,
        params: Vec<ParamValue>,
    ) -> (vertex: ShapeVertex)
        ensures
            vertex@ == (VertexSpec { rotation, position, scale, params: params@ }),
            vertex.params == params,
    {
        ShapeVertex { position, params, rotation, scale }
    }

    /// The depth key: the bits of the z component of the position.
    pub open spec fn spec_z_index(&self) -> u32 {
        self.position.2
    }

    /// The depth key: the bits of the z component of the position.
    pub fn z_index(&self) -> (z: u32)
        ensures
            z == self.spec_z_index(),
    {
        self.position.2
    }

    /// The words of the record, in memory order.
    pub open spec fn spec_words(&self) -> Seq<u32> {
        seq![
            self.rotation.0,
            self.rotation.1,
            self.position.0,
            self.position.1,
            self.position.2,
            self.scale,
        ] + values_words(self.params@)
    }

    /// The binary form of the record.
    pub open spec fn spec_bytes(&self) -> Seq<u8> {
        words_bytes(self.spec_words())
    }

    /// The words that the attribute at position `k` of the layout is made
    /// from: rotation, position, scale, then one parameter value each.
    pub open spec fn attribute_words(&self, k: int) -> Seq<u32> {
        if k == 0 {
            seq![self.rotation.0, self.rotation.1]
        } else if k == 1 {
            seq![self.position.0, self.position.1, self.position.2]
        } else if k == 2 {
            seq![self.scale]
        } else {
            self.params@[k - 3].spec_words()
        }
    }

    /// The words of the record, in memory order.
    pub fn words(&self) -> (words: Vec<u32>)
        ensures
            words@ == self.spec_words(),
    {
        let mut words: Vec<u32> = Vec::new();
        words.push(self.rotation.0);
        words.push(self.rotation.1);
        words.push(self.position.0);
        words.push(self.position.1);
        words.push(self.position.2);
        words.push(self.scale);
        let ghost head = words@;
        let mut index: usize = 0;
        while index < self.params.len()
            invariant
                index <= self.params.len(),
                words@ == head + values_words(self.params@.take(index as int)),
            decreases self.params.len() - index,
        {
            self.params[index].push_words(&mut words);
            proof {
                let prefix = self.params@.take(index as int + 1);
                assert(prefix.drop_last() =~= self.params@.take(index as int));
            }
            index += 1;
        }
        assert(self.params@.take(index as int) =~= self.params@);
        words
    }

    /// Appends the binary form of the record to `buffer`.
    pub fn write_to(&self, buffer: &mut Vec<u8>)
        ensures
            final(buffer)@ == old(buffer)@ + self.spec_bytes(),
    {
        let words = self.words();
        let mut index: usize = 0;
        while index < words.len()
            invariant
                index <= words.len(),
                buffer@ == old(buffer)@ + words_bytes(words@.take(index as int)),
            decreases words.len() - index,
        {
            let mut bytes = u32_to_le_bytes(words[index]);
            buffer.append(&mut bytes);
            proof {
                let prefix = words@.take(index as int + 1);
                assert(prefix.drop_last() =~= words@.take(index as int));
            }
            index += 1;
        }
        assert(words@.take(index as int) =~= words@);
    }

    /// The binary form of the record.
    pub fn pack(&self) -> (bytes: Vec<u8>)
        ensures
            bytes@ == self.spec_bytes(),
    {
        let mut bytes: Vec<u8> = Vec::new();
        self.write_to(&mut bytes);
        bytes
    }
}

/// Reads back, from the binary form of an instance, the words of one
/// attribute: those at its offset, as many as its format has.
///
/// `None` exactly when the attribute does not lie within `bytes`.
pub fn read_attribute(bytes: &Vec<u8>, attribute: &VertexAttribute) -> (words: Option<Vec<u32>>)
    ensures
        words is Some <==> attribute.offset + attribute.format.spec_size() <= bytes@.len(),
        words is Some ==> (words->0)@ == read_words(
            bytes@,
            attribute.offset as int,
            attribute.format.spec_words(),
        ),
{
    let count = attribute.format.words();
    let size = attribute.format.size();
    let len = bytes.len();
    if attribute.offset > u64::MAX - size {
        return None;
    }
    if (attribute.offset + size) as u128 > len as u128 {
        return None;
    }
    let offset: usize = attribute.offset as usize;
    let mut words: Vec<u32> = Vec::new();
    let mut index: usize = 0;
    while index < count
        invariant
            index <= count,
            count == attribute.format.spec_words(),
            offset == attribute.offset,
            len == bytes@.len(),
            offset + 4 * count <= len,
            words@ == read_words(bytes@, offset as int, index as nat),
        decreases count - index,
    {
        let start: usize = offset + 4 * index;
        let word = u32_from_le_bytes(slice_subrange(bytes.as_slice(), start, start + 4));
        words.push(word);
        index += 1;
    }
    Some(words)
}

/// The binary form of `words` has four bytes for each word.
pub proof fn lemma_words_bytes_len(words: Seq<u32>)
    ensures
        words_bytes(words).len() == 4 * words.len(),
    decreases words.len(),
{
    lemma_auto_spec_u32_to_from_le_bytes();
    if words.len() > 0 {
        lemma_words_bytes_len(words.drop_last());
    }
}

/// The word read at position `i` of the binary form of `words` is the word
/// at position `i`.
pub proof fn lemma_read_word(words: Seq<u32>, i: int)
    requires
        0 <= i < words.len(),
    ensures
        read_word(words_bytes(words), 4 * i) == words[i],
    decreases words.len(),
{
    lemma_auto_spec_u32_to_from_le_bytes();
    lemma_words_bytes_len(words);
    let head = words_bytes(words.drop_last());
    let tail = spec_u32_to_le_bytes(words.last());
    if i == words.len() - 1 {
        assert((head + tail).subrange(4 * i, 4 * i + 4) =~= tail);
    } else {
        lemma_read_word(words.drop_last(), i);
        assert((head + tail).subrange(4 * i, 4 * i + 4) =~= head.subrange(4 * i, 4 * i + 4));
    }
}

/// The words of `values` are those of its first `i` values followed by
/// those of the rest.
pub proof fn lemma_values_words_split(values: Seq<ParamValue>, i: int)
    requires
        0 <= i <= values.len(),
    ensures
        values_words(values) == values_words(values.take(i)) + values_words(values.skip(i)),
    decreases values.len(),
{
    if i == values.len() {
        assert(values.take(i) =~= values);
    } else {
        let front = values.drop_last();
        lemma_values_words_split(front, i);
        assert(front.take(i) =~= values.take(i));
        assert(front.skip(i) =~= values.skip(i).drop_last());
    }
}

/// Values that fill a supported schema take as many bytes as the layout
/// gives the schema's fields.
pub proof fn lemma_values_size(values: Seq<ParamValue>, schema: Seq<FieldSpec>)
    requires
        values_match(values, schema),
        all_supported(schema),
    ensures
        4 * values_words(values).len() == params_size(schema),
    decreases values.len(),
{
    if values.len() > 0 {
        lemma_values_size(values.drop_last(), schema.drop_last());
    }
}

/// Packing round trip: what is read back from the binary form of a record
/// at the offset and in the format of each attribute of its schema's layout
/// is, bit for bit, what the record holds for that attribute, and the
/// binary form is one array stride long.
pub proof fn lemma_pack_round_trip(vertex: ShapeVertex, schema: Seq<FieldSpec>)
    requires
        values_match(vertex.params@, schema),
        all_supported(schema),
    ensures
        vertex.spec_bytes().len() == spec_layout(schema).array_stride,
        forall|k: int|
            0 <= k < spec_layout(schema).attributes.len() ==> read_words(
                vertex.spec_bytes(),
                (#[trigger] spec_layout(schema).attributes[k]).offset as int,
                spec_layout(schema).attributes[k].format.spec_words(),
            ) == vertex.attribute_words(k),
{
    let words = vertex.spec_words();
    let bytes = vertex.spec_bytes();
    let values = vertex.params@;
    let layout = spec_layout(schema);
    lemma_words_bytes_len(words);
    lemma_values_size(values, schema);
    assert forall|k: int| 0 <= k < layout.attributes.len() implies read_words(
        bytes,
        (#[trigger] layout.attributes[k]).offset as int,
        layout.attributes[k].format.spec_words(),
    ) == vertex.attribute_words(k) by {
        let attribute = layout.attributes[k];
        let count = attribute.format.spec_words();
        let expected = vertex.attribute_words(k);
        // position of the attribute's first word among the record's words
        let first: int = if k == 0 {
            0
        } else if k == 1 {
            2
        } else if k == 2 {
            5
        } else {
            6 + values_words(values.take(k - 3)).len() as int
        };
        if k >= 3 {
            let i = k - 3;
            lemma_values_words_split(values, i);
            lemma_values_words_split(values.skip(i), 1);
            assert(values.skip(i).take(1) =~= seq![values[i]]);
            assert(values_words(seq![values[i]]) =~= values[i].spec_words()) by {
                reveal_with_fuel(values_words, 2);
            }
            lemma_values_size(values.take(i), schema.take(i));
        }
        assert forall|j: int| 0 <= j < count implies #[trigger] read_words(
            bytes,
            attribute.offset as int,
            count,
        )[j] == expected[j] by {
            lemma_read_word(words, first + j);
        }
    }
}

} // verus!
