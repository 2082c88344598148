//! The input buffer of the culling shaders.
//!
//! The buffer starts with the uniforms, padded to 16 bytes, and goes on with one
//! record per object.

use vstd::prelude::*;

use crate::bytes::cast_words;
use crate::scene::{InternalObject, MaterialManager};

verus! {

/// Words in a 4x4 matrix.
pub const MATRIX_WORDS: usize = 16;

/// Words in the record of an object.
pub const INPUT_WORDS: usize = 24;

/// Bytes in the record of an object.
pub const INPUT_SIZE: usize = 96;

/// What all objects share.
pub struct GPUCullingUniforms<'a> {
    pub view: [u32; 16],
    pub view_proj: [u32; 16],
    pub frustum: &'a Vec<u32>,
    pub object_count: u32,
}

/// The record of one object.
#[derive(Clone, Copy, Debug, PartialEq, Eq)]
pub struct GPUCullingInput {
    pub start_idx: u32,
    pub count: u32,
    pub vertex_offset: i32,
    pub material_idx: u32,
    pub transform: [u32; 16],
    pub bounding_sphere: [u32; 4],
}

/// The low 32 bits of a number.
pub open spec fn low_word(n: int) -> u32 {
    (n % 0x1_0000_0000) as u32
}

/// The word with the same bits as a signed number.
pub open spec fn signed_word(n: i32) -> u32 {
    low_word(n as int)
}

/// The signed number with the same bits as a word.
pub open spec fn word_signed(word: u32) -> i32 {
    if word < 0x8000_0000 {
        word as i32
    } else {
        (word - 0x1_0000_0000) as i32
    }
}

/// The words that the uniforms take up: two matrices, the frustum and the number
/// of objects, filled up to a multiple of four words.
pub open spec fn uniform_words(frustum_words: nat) -> nat {
    (2 * MATRIX_WORDS + frustum_words + 1 + 3) as nat / 4 * 4
}

/// The bytes that the uniforms take up.
pub open spec fn uniform_size(frustum_words: nat) -> nat {
    4 * uniform_words(frustum_words)
}

/// The bytes of the whole buffer.
pub open spec fn cull_data_size(frustum_words: nat, objects: nat) -> nat {
    uniform_size(frustum_words) + INPUT_SIZE as nat * objects
}

/// The uniforms, word by word. What fills up the last four words is zero.
pub open spec fn uniform_image(uniforms: GPUCullingUniforms<'_>) -> Seq<u32> {
    let fields = uniforms.view@ + uniforms.view_proj@ + uniforms.frustum@ + seq![
        uniforms.object_count,
    ];
    fields + Seq::new(
        (uniform_words(uniforms.frustum@.len()) - fields.len()) as nat,
        |i: int| 0u32,
    )
}

/// The record of an object, word by word.
pub open spec fn input_image(input: GPUCullingInput) -> Seq<u32> {
    seq![input.start_idx, input.count, signed_word(input.vertex_offset), input.material_idx]
        + input.transform@ + input.bounding_sphere@
}

/// The record of an object, with its material looked up.
pub open spec fn input_of(
    materials: Map<usize, usize>,
    object: InternalObject,
) -> GPUCullingInput {
    GPUCullingInput {
        start_idx: object.start_idx,
        count: object.count,
        vertex_offset: object.vertex_offset,
        material_idx: low_word(materials[object.material] as int),
        transform: object.transform,
        bounding_sphere: object.sphere,
    }
}

/// The records of objects, one after the other.
pub open spec fn records_image(
    materials: Map<usize, usize>,
    objects: Seq<InternalObject>,
) -> Seq<u32> {
    Seq::new(
        INPUT_WORDS as nat * objects.len(),
        |i: int|
            input_image(input_of(materials, objects[i / INPUT_WORDS as int]))[i
                % INPUT_WORDS as int],
    )
}

/// The whole buffer, word by word.
pub open spec fn cull_image(
    uniforms: GPUCullingUniforms<'_>,
    materials: Map<usize, usize>,
    objects: Seq<InternalObject>,
) -> Seq<u32> {
    uniform_image(uniforms) + records_image(materials, objects)
}

/// Each object has a material that is kept somewhere.
pub open spec fn materials_known(
    materials: Map<usize, usize>,
    objects: Seq<InternalObject>,
) -> bool {
    forall|i: int|
        0 <= i < objects.len() ==> materials.contains_key((#[trigger] objects[i]).material)
}

/// The low 32 bits of a number.
pub fn truncate(n: usize) -> (word: u32)
    ensures
        word == low_word(n as int),
        word == n as int % 0x1_0000_0000,
{
    let wide: u64 = n as u64;
    assert(wide as u32 == wide % 0x1_0000_0000) by (bit_vector);
    #[verifier::truncate]
    let word: u32 = wide as u32;
    word
}

/// The bytes that the uniforms take up.
pub fn culling_uniforms_size(frustum_words: usize) -> (size: usize)
    requires
        uniform_size(frustum_words as nat) <= usize::MAX,
    ensures
        size == uniform_size(frustum_words as nat),
        size % 16 == 0,
        4 * (33 + frustum_words) <= size < 4 * (33 + frustum_words) + 16,
{
    (2 * MATRIX_WORDS + frustum_words + 4) / 4 * 16
}

fn push_words(out: &mut Vec<u32>, words: &[u32])
    ensures
        final(out)@ == old(out)@ + words@,
{
    for i in 0..words.len()
        invariant
            out@ == old(out)@ + words@.take(i as int),
    {
        out.push(words[i]);
        assert(out@ =~= old(out)@ + words@.take(i + 1));
    }
    assert(words@.take(words@.len() as int) =~= words@);
}

fn push_uniforms(out: &mut Vec<u32>, uniforms: &GPUCullingUniforms<'_>)
    requires
        uniform_words(uniforms.frustum@.len()) <= usize::MAX,
    ensures
        final(out)@ == old(out)@ + uniform_image(*uniforms),
{
    push_words(out, uniforms.view.as_slice());
    push_words(out, uniforms.view_proj.as_slice());
    push_words(out, uniforms.frustum.as_slice());
    out.push(uniforms.object_count);
    let ghost fields = uniforms.view@ + uniforms.view_proj@ + uniforms.frustum@ + seq![
        uniforms.object_count,
    ];
    assert(out@ =~= old(out)@ + fields);
    let padding: usize = 3 - uniforms.frustum.len() % 4;
    for i in 0..padding
        invariant
            out@ == old(out)@ + fields + Seq::new(i as nat, |k: int| 0u32),
    {
        out.push(0);
        assert(out@ =~= old(out)@ + fields + Seq::new((i + 1) as nat, |k: int| 0u32));
    }
    assert(out@ =~= old(out)@ + uniform_image(*uniforms));
}

fn push_record(out: &mut Vec<u32>, materials: &MaterialManager, object: &InternalObject)
    requires
        materials@.contains_key(object.material),
    ensures
        final(out)@ == old(out)@ + input_image(input_of(materials@, *object)),
{
    let material_idx: u32 = truncate(materials.get_internal_index(object.material));
    let offset: i32 = object.vertex_offset;
    assert(offset >= 0 ==> offset as u32 == offset) by (bit_vector);
    assert(offset < 0 ==> offset as u32 == offset + 0x1_0000_0000) by (bit_vector);
    #[verifier::truncate]
    let vertex_offset: u32 = offset as u32;
    out.push(object.start_idx);
    out.push(object.count);
    out.push(vertex_offset);
    out.push(material_idx);
    push_words(out, object.transform.as_slice());
    push_words(out, object.sphere.as_slice());
    assert(out@ =~= old(out)@ + input_image(input_of(materials@, *object)));
}

/// Adding a record after the records of the first objects gives those of one
/// object more.
proof fn lemma_records_step(
    materials: Map<usize, usize>,
    objects: Seq<InternalObject>,
    i: int,
)
    requires
        0 <= i < objects.len(),
    ensures
        records_image(materials, objects.take(i + 1)) == records_image(materials, objects.take(i))
            + input_image(input_of(materials, objects[i])),
{
    let before = records_image(materials, objects.take(i));
    let record = input_image(input_of(materials, objects[i]));
    let after = records_image(materials, objects.take(i + 1));
    assert(record.len() == 24);
    assert forall|k: int| 0 <= k < after.len() implies after[k] == (before + record)[k] by {
        if k < before.len() {
            assert(k / 24 < i);
        } else {
            assert(k / 24 == i && k % 24 == k - 24 * i);
        }
    }
    assert(after =~= before + record);
}

/// Lays out the input buffer, word by word.
pub fn build_cull_words(
    uniforms: &GPUCullingUniforms<'_>,
    materials: &MaterialManager,
    objects: &[InternalObject],
) -> (words: Vec<u32>)
    requires
        materials_known(materials@, objects@),
        cull_data_size(uniforms.frustum@.len(), objects@.len()) <= usize::MAX,
    ensures
        words@ == cull_image(*uniforms, materials@, objects@),
        4 * words@.len() == cull_data_size(uniforms.frustum@.len(), objects@.len()),
        words@.len() == (36 + uniforms.frustum@.len()) as int / 4 * 4 + 24 * objects@.len(),
        forall|i: int| 0 <= i < 16 ==> words@[i] == #[trigger] uniforms.view@[i],
        forall|i: int| 0 <= i < 16 ==> words@[16 + i] == #[trigger] uniforms.view_proj@[i],
        forall|i: int|
            0 <= i < uniforms.frustum@.len() ==> words@[32 + i] == #[trigger] uniforms.frustum@[i],
        words@[32int + uniforms.frustum@.len()] == uniforms.object_count,
        forall|i: int|
            33 + uniforms.frustum@.len() <= i < (36 + uniforms.frustum@.len()) as int / 4 * 4
                ==> #[trigger] words@[i] == 0,
        forall|i: int|
            0 <= i < objects@.len() ==> {
                let at = (36 + uniforms.frustum@.len()) as int / 4 * 4 + 24 * i;
                let object = #[trigger] objects@[i];
                &&& words@[at] == object.start_idx
                &&& words@[at + 1] == object.count
                &&& words@[at + 2] == (if object.vertex_offset >= 0 {
                    object.vertex_offset as int
                } else {
                    object.vertex_offset + 0x1_0000_0000
                })
                &&& words@[at + 3] == materials@[object.material] as int % 0x1_0000_0000
                &&& words@.subrange(at + 4, at + 20) == object.transform@
                &&& words@.subrange(at + 20, at + 24) == object.sphere@
            },
{
    let uniform_bytes: usize = culling_uniforms_size(uniforms.frustum.len());
    let mut words: Vec<u32> = Vec::with_capacity((uniform_bytes + objects.len() * INPUT_SIZE) / 4);
    push_uniforms(&mut words, uniforms);
    assert(words@ =~= uniform_image(*uniforms) + records_image(materials@, objects@.take(0)));
    for i in 0..objects.len()
        invariant
            materials_known(materials@, objects@),
            words@ == uniform_image(*uniforms) + records_image(
                materials@,
                objects@.take(i as int),
            ),
    {
        proof {
            lemma_records_step(materials@, objects@, i as int);
        }
        push_record(&mut words, materials, &objects[i]);
        assert(words@ =~= uniform_image(*uniforms) + records_image(materials@, objects@.take(i + 1)));
    }
    assert(objects@.take(objects@.len() as int) =~= objects@);
    proof {
        law_buffer_places(*uniforms, materials@, objects@, words@);
    }
    words
}

/// Lays out the input buffer.
pub fn build_cull_data(
    uniforms: &GPUCullingUniforms<'_>,
    materials: &MaterialManager,
    objects: &[InternalObject],
) -> (data: Vec<u8>)
    requires
        materials_known(materials@, objects@),
        cull_data_size(uniforms.frustum@.len(), objects@.len()) <= usize::MAX,
    ensures
        data@ == crate::bytes::words_to_bytes(
            crate::bytes::machine_order(),
            cull_image(*uniforms, materials@, objects@),
        ),
        crate::bytes::is_image(data@, cull_image(*uniforms, materials@, objects@)),
        data@.len() == cull_data_size(uniforms.frustum@.len(), objects@.len()),
{
    let words = build_cull_words(uniforms, materials, objects);
    cast_words(words.as_slice())
}

/// The uniforms can be read back from the start of the buffer.
pub proof fn law_uniforms_read_back(
    uniforms: GPUCullingUniforms<'_>,
    materials: Map<usize, usize>,
    objects: Seq<InternalObject>,
)
    ensures
        ({
            let image = cull_image(uniforms, materials, objects);
            let frustum_end = 2 * MATRIX_WORDS + uniforms.frustum@.len();
            &&& image.subrange(0, MATRIX_WORDS as int) == uniforms.view@
            &&& image.subrange(MATRIX_WORDS as int, 2 * MATRIX_WORDS) == uniforms.view_proj@
            &&& image.subrange(2 * MATRIX_WORDS, frustum_end) == uniforms.frustum@
            &&& image[frustum_end] == uniforms.object_count
        }),
{
    let image = cull_image(uniforms, materials, objects);
    assert(image.subrange(0, 16) =~= uniforms.view@);
    assert(image.subrange(16, 32) =~= uniforms.view_proj@);
    assert(image.subrange(32, 32int + uniforms.frustum@.len()) =~= uniforms.frustum@);
}

/// The record of each object can be read back from its place in the buffer: the
/// `i`th record starts `i` record sizes after the uniforms.
pub proof fn law_record_read_back(
    uniforms: GPUCullingUniforms<'_>,
    materials: Map<usize, usize>,
    objects: Seq<InternalObject>,
    i: int,
)
    requires
        0 <= i < objects.len(),
    ensures
        ({
            let start = uniform_words(uniforms.frustum@.len()) + i * INPUT_WORDS;
            let record = cull_image(uniforms, materials, objects).subrange(
                start,
                start + INPUT_WORDS,
            );
            &&& record[0] == objects[i].start_idx
            &&& record[1] == objects[i].count
            &&& word_signed(record[2]) == objects[i].vertex_offset
            &&& record[3] == low_word(materials[objects[i].material] as int)
            &&& record.subrange(4, 4 + MATRIX_WORDS) == objects[i].transform@
            &&& record.subrange(4 + MATRIX_WORDS, INPUT_WORDS as int) == objects[i].sphere@
        }),
{
    let image = cull_image(uniforms, materials, objects);
    let start = uniform_words(uniforms.frustum@.len()) + i * 24;
    let record = image.subrange(start, start + 24);
    let expected = input_image(input_of(materials, objects[i]));
    assert(uniform_image(uniforms).len() == uniform_words(uniforms.frustum@.len()));
    assert forall|k: int| 0 <= k < 24 implies record[k] == expected[k] by {
        let at = i * 24 + k;
        assert(at / 24 == i && at % 24 == k);
        assert(image[start + k] == records_image(materials, objects)[at]);
    }
    assert(record.subrange(4, 20) =~= objects[i].transform@);
    assert(record.subrange(20, 24) =~= objects[i].sphere@);
}

/// Everything in the buffer has its place: the matrices, the frustum, the number
/// of objects, zeros up to a multiple of four words, and then, 24 words for each
/// object, its mesh, the index of its material, its matrix and its sphere.
pub proof fn law_buffer_places(
    uniforms: GPUCullingUniforms<'_>,
    materials: Map<usize, usize>,
    objects: Seq<InternalObject>,
    image: Seq<u32>,
)
    requires
        image == cull_image(uniforms, materials, objects),
    ensures
        image.len() == (36 + uniforms.frustum@.len()) as int / 4 * 4 + 24 * objects.len(),
        forall|i: int| 0 <= i < 16 ==> image[i] == #[trigger] uniforms.view@[i],
        forall|i: int| 0 <= i < 16 ==> image[16 + i] == #[trigger] uniforms.view_proj@[i],
        forall|i: int|
            0 <= i < uniforms.frustum@.len() ==> image[32 + i] == #[trigger] uniforms.frustum@[i],
        image[32int + uniforms.frustum@.len()] == uniforms.object_count,
        forall|i: int|
            33 + uniforms.frustum@.len() <= i < (36 + uniforms.frustum@.len()) as int / 4 * 4
                ==> #[trigger] image[i] == 0,
        forall|i: int|
            0 <= i < objects.len() ==> {
                let at = (36 + uniforms.frustum@.len()) as int / 4 * 4 + 24 * i;
                let object = #[trigger] objects[i];
                &&& image[at] == object.start_idx
                &&& image[at + 1] == object.count
                &&& image[at + 2] == (if object.vertex_offset >= 0 {
                    object.vertex_offset as int
                } else {
                    object.vertex_offset + 0x1_0000_0000
                })
                &&& image[at + 3] == materials[object.material] as int % 0x1_0000_0000
                &&& image.subrange(at + 4, at + 20) == object.transform@
                &&& image.subrange(at + 20, at + 24) == object.sphere@
            },
{
    law_uniforms_read_back(uniforms, materials, objects);
    let f = uniforms.frustum@.len();
    assert(image.len() == uniform_words(f) + 24 * objects.len());
    assert forall|i: int| 0 <= i < 16 implies image[i] == #[trigger] uniforms.view@[i] by {
        assert(image.subrange(0, 16)[i] == image[i]);
    }
    assert forall|i: int| 0 <= i < 16 implies image[16 + i]
        == #[trigger] uniforms.view_proj@[i] by {
        assert(image.subrange(16, 32)[i] == image[16 + i]);
    }
    assert forall|i: int| 0 <= i < f implies image[32 + i] == #[trigger] uniforms.frustum@[i] by {
        assert(image.subrange(32, 32int + f)[i] == image[32 + i]);
    }
    assert forall|i: int| 0 <= i < objects.len() implies {
        let at = (36 + f) as int / 4 * 4 + 24 * i;
        let object = #[trigger] objects[i];
        &&& image[at] == object.start_idx
        &&& image[at + 1] == object.count
        &&& image[at + 2] == (if object.vertex_offset >= 0 {
            object.vertex_offset as int
        } else {
            object.vertex_offset + 0x1_0000_0000
        })
        &&& image[at + 3] == materials[object.material] as int % 0x1_0000_0000
        &&& image.subrange(at + 4, at + 20) == object.transform@
        &&& image.subrange(at + 20, at + 24) == object.sphere@
    } by {
        law_record_read_back(uniforms, materials, objects, i);
        let at = (36 + f) as int / 4 * 4 + 24 * i;
        let record = image.subrange(at, at + 24);
        assert(at == uniform_words(f) + i * 24);
        assert(record[0] == image[at]);
        assert(record[1] == image[at + 1]);
        assert(record[2] == image[at + 2]);
        assert(record[3] == image[at + 3]);
        assert(image.subrange(at + 4, at + 20) =~= record.subrange(4, 20));
        assert(image.subrange(at + 20, at + 24) =~= record.subrange(20, 24));
    }
}

/// The low word of a number is the number, as long as that is a word; and what
/// goes beyond a word does not matter.
pub proof fn law_low_word(n: int)
    ensures
        0 <= n < 0x1_0000_0000 ==> low_word(n) == n,
        low_word(n + 0x1_0000_0000) == low_word(n),
        0 <= low_word(n) < 0x1_0000_0000,
{
}

/// The buffer takes the uniforms, filled up to 16 bytes and no further, and 96
/// bytes for each object.
pub proof fn law_cull_data_size(frustum_words: nat, objects: nat)
    ensures
        uniform_size(frustum_words) % 16 == 0,
        4 * (33 + frustum_words) <= uniform_size(frustum_words) < 4 * (33 + frustum_words) + 16,
        cull_data_size(frustum_words, 0) == uniform_size(frustum_words),
        cull_data_size(frustum_words, objects + 1) == cull_data_size(frustum_words, objects) + 96,
{
}

/// The buffer of two lists of objects, one after the other, is the buffer of the
/// first, followed by what the buffer of the second has after the uniforms.
pub proof fn law_cull_data_appends(
    uniforms: GPUCullingUniforms<'_>,
    materials: Map<usize, usize>,
    first: Seq<InternalObject>,
    second: Seq<InternalObject>,
    order: crate::bytes::ByteOrder,
)
    ensures
        ({
            let one = crate::bytes::words_to_bytes(order, cull_image(uniforms, materials, first));
            let two = crate::bytes::words_to_bytes(order, cull_image(uniforms, materials, second));
            let both = crate::bytes::words_to_bytes(
                order,
                cull_image(uniforms, materials, first + second),
            );
            let start = (36 + uniforms.frustum@.len()) as int / 4 * 16;
            &&& both == one + two.subrange(start, two.len() as int)
            &&& one.subrange(0, start) == two.subrange(0, start)
        }),
{
    let head = uniform_image(uniforms);
    let a = records_image(materials, first);
    let b = records_image(materials, second);
    let both = records_image(materials, first + second);
    assert(head.len() == uniform_words(uniforms.frustum@.len()));
    assert forall|k: int| 0 <= k < both.len() implies both[k] == (a + b)[k] by {
        if k < a.len() {
            assert(k / 24 < first.len());
            assert((first + second)[k / 24] == first[k / 24]);
        } else {
            let m = k - 24 * first.len();
            assert(m / 24 == k / 24 - first.len() && m % 24 == k % 24);
            assert((first + second)[k / 24] == second[m / 24]);
        }
    }
    assert(both =~= a + b);
    assert(cull_image(uniforms, materials, first + second) =~= (head + a) + b);
    crate::bytes::law_bytes_append(order, head + a, b);
    crate::bytes::law_bytes_append(order, head, a);
    crate::bytes::law_bytes_append(order, head, b);
    let start = (36 + uniforms.frustum@.len()) as int / 4 * 16;
    let head_bytes = crate::bytes::words_to_bytes(order, head);
    let one = crate::bytes::words_to_bytes(order, head + a);
    let two = crate::bytes::words_to_bytes(order, head + b);
    assert(head_bytes.len() == start);
    assert(one.subrange(0, start) =~= head_bytes);
    assert(two.subrange(0, start) =~= head_bytes);
    assert(two.subrange(start, two.len() as int) =~= crate::bytes::words_to_bytes(order, b));
}

} // verus!
