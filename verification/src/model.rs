//! Meshes and their binary form.
//!
//! A mesh is stored as little-endian 32-bit words: the number of vertices,
//! three words per vertex, the number of indices, one word per index, the
//! number of texture coordinates, one word per coordinate. Positions and
//! texture coordinates are IEEE 754 single-precision numbers; they are kept
//! here as their bit patterns, which is all that decoding and uploading need.

use vstd::prelude::*;
use vstd::bytes::{
    lemma_auto_spec_u32_to_from_le_bytes, spec_u32_from_le_bytes, spec_u32_to_le_bytes,
    u32_from_le_bytes, u32_to_le_bytes,
};
use vstd::slice::slice_subrange;

verus! {

/// A vertex position: the bit patterns of its three coordinates.
#[derive(Debug, Clone, Copy, PartialEq, Eq, Structural)]
pub struct Vertex {
    pub x: u32,
    pub y: u32,
    pub z: u32,
}

/// A decoded mesh.
#[derive(Debug, Clone)]
pub struct Model {
    pub verts: Vec<Vertex>,
    pub indices: Vec<u32>,
    /// Bit patterns of the texture coordinates; empty when the mesh has
    /// none.
    pub uvs: Vec<u32>,
}

/// The contents of a mesh.
pub struct ModelData {
    pub verts: Seq<Vertex>,
    pub indices: Seq<u32>,
    pub uvs: Seq<u32>,
}

impl View for Model {
    type V = ModelData;

    open spec fn view(&self) -> ModelData {
        ModelData { verts: self.verts@, indices: self.indices@, uvs: self.uvs@ }
    }
}

/// Why bytes are not a mesh.
#[derive(Debug, Clone, Copy, PartialEq, Eq, Structural)]
pub enum DecodeError {
    /// The bytes end before the data that their counts announce.
    Truncated,
}

/// Why a mesh has no binary form.
#[derive(Debug, Clone, Copy, PartialEq, Eq, Structural)]
pub enum EncodeError {
    /// A list is longer than a 32-bit count can say.
    TooLong,
}

/// The little-endian word that starts at `offset`.
pub open spec fn word_at(data: Seq<u8>, offset: int) -> u32 {
    spec_u32_from_le_bytes(data.subrange(offset, offset + 4))
}

/// `count` consecutive words, the first at `offset`.
pub open spec fn words_at(data: Seq<u8>, offset: int, count: nat) -> Seq<u32> {
    Seq::new(count, |i: int| word_at(data, offset + 4 * i))
}

/// `count` consecutive vertices, the first at `offset`.
pub open spec fn verts_at(data: Seq<u8>, offset: int, count: nat) -> Seq<Vertex> {
    Seq::new(
        count,
        |i: int|
            Vertex {
                x: word_at(data, offset + 12 * i),
                y: word_at(data, offset + 12 * i + 4),
                z: word_at(data, offset + 12 * i + 8),
            },
    )
}

/// The mesh that `data` holds, if it is long enough for what its counts
/// announce. Bytes after the texture coordinates are not looked at.
pub open spec fn decoded(data: Seq<u8>) -> Option<ModelData> {
    if data.len() < 4 {
        None
    } else {
        let vert_count = word_at(data, 0);
        let verts_end = 4 + 12 * vert_count;
        if data.len() < verts_end + 4 {
            None
        } else {
            let index_count = word_at(data, verts_end);
            let indices_end = verts_end + 4 + 4 * index_count;
            if data.len() < indices_end + 4 {
                None
            } else {
                let uv_count = word_at(data, indices_end);
                if data.len() < indices_end + 4 + 4 * uv_count {
                    None
                } else {
                    Some(
                        ModelData {
                            verts: verts_at(data, 4, vert_count as nat),
                            indices: words_at(data, verts_end + 4, index_count as nat),
                            uvs: words_at(data, indices_end + 4, uv_count as nat),
                        },
                    )
                }
            }
        }
    }
}

/// The coordinates of all vertices, three words per vertex.
pub open spec fn vertex_words(verts: Seq<Vertex>) -> Seq<u32> {
    Seq::new(
        3 * verts.len(),
        |k: int|
            if k % 3 == 0 {
                verts[k / 3].x
            } else if k % 3 == 1 {
                verts[k / 3].y
            } else {
                verts[k / 3].z
            },
    )
}

/// The words of a mesh's binary form. Meant for meshes whose lists are each
/// at most `u32::MAX` long.
pub open spec fn model_words(m: ModelData) -> Seq<u32> {
    seq![m.verts.len() as u32] + vertex_words(m.verts) + seq![m.indices.len() as u32] + m.indices
        + seq![m.uvs.len() as u32] + m.uvs
}

/// The bytes of a sequence of words, each in little-endian order.
pub open spec fn words_to_bytes(words: Seq<u32>) -> Seq<u8> {
    Seq::new(4 * words.len(), |k: int| spec_u32_to_le_bytes(words[k / 4])[k % 4])
}

/// The binary form of a mesh.
pub open spec fn encoded(m: ModelData) -> Seq<u8> {
    words_to_bytes(model_words(m))
}

/// Whether each list of the mesh is short enough for a 32-bit count.
pub open spec fn encodable(m: ModelData) -> bool {
    m.verts.len() <= u32::MAX && m.indices.len() <= u32::MAX && m.uvs.len() <= u32::MAX
}

/// Reading back the `i`-th word of an encoded sequence gives that word.
pub proof fn lemma_word_at_encoded(words: Seq<u32>, i: int)
    requires
        0 <= i < words.len(),
    ensures
        word_at(words_to_bytes(words), 4 * i) == words[i],
{
    lemma_auto_spec_u32_to_from_le_bytes();
    let bytes = words_to_bytes(words);
    assert(bytes.subrange(4 * i, 4 * i + 4) =~= spec_u32_to_le_bytes(words[i]));
}

/// Decoding the binary form of a mesh gives the mesh back: the same
/// vertices, indices and texture coordinates, in the same order. This holds
/// of the empty mesh too, whose binary form is three zero counts.
pub proof fn lemma_decode_encoded(m: ModelData)
    requires
        encodable(m),
    ensures
        decoded(encoded(m)) == Some(m),
        encoded(m).len() == 12 + 12 * m.verts.len() + 4 * m.indices.len() + 4 * m.uvs.len(),
{
    let words = model_words(m);
    let data = encoded(m);
    let v = m.verts.len() as int;
    let n = m.indices.len() as int;
    let u = m.uvs.len() as int;
    assert(words.len() == 3 + 3 * v + n + u);
    assert(data.len() == 4 * words.len());
    lemma_word_at_encoded(words, 0);
    assert(words[0] == v as u32);
    lemma_word_at_encoded(words, 1 + 3 * v);
    assert(words[1 + 3 * v] == n as u32);
    lemma_word_at_encoded(words, 2 + 3 * v + n);
    assert(words[2 + 3 * v + n] == u as u32);
    let verts_end = 4 + 12 * v;
    let indices_end = verts_end + 4 + 4 * n;
    assert(word_at(data, 0) == v as u32);
    assert(word_at(data, 4 * (1 + 3 * v)) == n as u32);
    assert(word_at(data, 4 * (2 + 3 * v + n)) == u as u32);
    let d = decoded(data)->Some_0;
    assert(decoded(data) is Some);
    assert(d.verts =~= m.verts) by {
        assert forall|i: int| 0 <= i < v implies d.verts[i] == m.verts[i] by {
            lemma_word_at_encoded(words, 1 + 3 * i);
            lemma_word_at_encoded(words, 2 + 3 * i);
            lemma_word_at_encoded(words, 3 + 3 * i);
            assert(4 + 12 * i == 4 * (1 + 3 * i));
            assert(4 + 12 * i + 4 == 4 * (2 + 3 * i));
            assert(4 + 12 * i + 8 == 4 * (3 + 3 * i));
            assert(words[1 + 3 * i] == vertex_words(m.verts)[3 * i]);
            assert(words[2 + 3 * i] == vertex_words(m.verts)[3 * i + 1]);
            assert(words[3 + 3 * i] == vertex_words(m.verts)[3 * i + 2]);
        }
    }
    assert(d.indices =~= m.indices) by {
        assert forall|i: int| 0 <= i < n implies d.indices[i] == m.indices[i] by {
            lemma_word_at_encoded(words, 2 + 3 * v + i);
            assert(verts_end + 4 + 4 * i == 4 * (2 + 3 * v + i));
        }
    }
    assert(d.uvs =~= m.uvs) by {
        assert forall|i: int| 0 <= i < u implies d.uvs[i] == m.uvs[i] by {
            lemma_word_at_encoded(words, 3 + 3 * v + n + i);
            assert(indices_end + 4 + 4 * i == 4 * (3 + 3 * v + n + i));
        }
    }
}

/// Reads the little-endian word that starts at `offset`.
fn read_word(data: &[u8], offset: usize) -> (word: u32)
    requires
        offset + 4 <= data@.len(),
    ensures
        word == word_at(data@, offset as int),
{
    let len = data.len();
    assert(offset + 4 <= len);
    u32_from_le_bytes(slice_subrange(data, offset, offset + 4))
}

/// Reads `count` consecutive words, the first at `offset`.
fn read_words(data: &[u8], offset: usize, count: u32) -> (words: Vec<u32>)
    requires
        offset + 4 * count <= data@.len(),
    ensures
        words@ == words_at(data@, offset as int, count as nat),
{
    let len = data.len();
    let mut words: Vec<u32> = Vec::new();
    let mut i: u32 = 0;
    let mut at: usize = offset;
    while i < count
        invariant
            i <= count,
            at == offset + 4 * i,
            offset + 4 * count <= data@.len(),
            data@.len() == len,
            words@ == words_at(data@, offset as int, i as nat),
        decreases count - i,
    {
        words.push(read_word(data, at));
        at += 4;
        i += 1;
        assert(words@ =~= words_at(data@, offset as int, i as nat));
    }
    words
}

/// Appends the bytes of `word`, in little-endian order.
fn write_word(out: &mut Vec<u8>, word: u32, Ghost(words): Ghost<Seq<u32>>)
    requires
        old(out)@ == words_to_bytes(words),
    ensures
        final(out)@ == words_to_bytes(words.push(word)),
{
    let mut bytes = u32_to_le_bytes(word);
    out.append(&mut bytes);
    proof {
        let grown = words.push(word);
        assert forall|k: int| 0 <= k < 4 * grown.len() implies out@[k] == spec_u32_to_le_bytes(
            grown[k / 4],
        )[k % 4] by {
            if k < 4 * words.len() {
                assert(grown[k / 4] == words[k / 4]);
            } else {
                assert(k / 4 == words.len());
            }
        }
        assert(out@ =~= words_to_bytes(grown));
    }
}

impl Model {
    /// Decodes a mesh from its binary form. Fails exactly when the bytes
    /// end before the counts, vertices, indices or texture coordinates that
    /// they announce; bytes after the texture coordinates are ignored.
    pub fn decode(data: &[u8]) -> (mesh: Result<Model, DecodeError>)
        ensures
            match mesh {
                Ok(m) => decoded(data@) == Some(m@),
                Err(e) => decoded(data@).is_none() && e == DecodeError::Truncated,
            },
    {
        let len = data.len();
        if len < 4 {
            return Err(DecodeError::Truncated);
        }
        let vert_count = read_word(data, 0);
        if ((len - 4) as u64) / 12 < vert_count as u64 {
            return Err(DecodeError::Truncated);
        }
        let verts_end: usize = 4 + 12 * (vert_count as usize);
        if len - verts_end < 4 {
            return Err(DecodeError::Truncated);
        }
        let mut verts: Vec<Vertex> = Vec::new();
        let mut i: u32 = 0;
        let mut at: usize = 4;
        while i < vert_count
            invariant
                i <= vert_count,
                at == 4 + 12 * i,
                4 + 12 * vert_count <= data@.len(),
                data@.len() == len,
                verts@ == verts_at(data@, 4, i as nat),
            decreases vert_count - i,
        {
            let x = read_word(data, at);
            let y = read_word(data, at + 4);
            let z = read_word(data, at + 8);
            verts.push(Vertex { x, y, z });
            at += 12;
            i += 1;
            assert(verts@ =~= verts_at(data@, 4, i as nat));
        }
        let index_count = read_word(data, verts_end);
        let indices_start: usize = verts_end + 4;
        if ((len - indices_start) as u64) / 4 < index_count as u64 {
            return Err(DecodeError::Truncated);
        }
        let indices_end: usize = indices_start + 4 * (index_count as usize);
        if len - indices_end < 4 {
            return Err(DecodeError::Truncated);
        }
        let indices = read_words(data, indices_start, index_count);
        let uv_count = read_word(data, indices_end);
        let uvs_start: usize = indices_end + 4;
        if ((len - uvs_start) as u64) / 4 < uv_count as u64 {
            return Err(DecodeError::Truncated);
        }
        let uvs = read_words(data, uvs_start, uv_count);
        Ok(Model { verts, indices, uvs })
    }

    /// The binary form of the mesh. Fails exactly when a list is longer
    /// than a 32-bit count can say.
    pub fn encode(&self) -> (bytes: Result<Vec<u8>, EncodeError>)
        ensures
            encodable(self@) ==> bytes is Ok && bytes->Ok_0@ == encoded(self@),
            !encodable(self@) ==> bytes == Err::<Vec<u8>, EncodeError>(EncodeError::TooLong),
    {
        if self.verts.len() > u32::MAX as usize || self.indices.len() > u32::MAX as usize
            || self.uvs.len() > u32::MAX as usize {
            return Err(EncodeError::TooLong);
        }
        let mut out: Vec<u8> = Vec::new();
        let ghost mut words: Seq<u32> = Seq::empty();
        assert(out@ =~= words_to_bytes(words));
        write_word(&mut out, self.verts.len() as u32, Ghost(words));
        proof {
            words = words.push(self.verts.len() as u32);
        }
        let mut i: usize = 0;
        while i < self.verts.len()
            invariant
                i <= self.verts@.len(),
                out@ == words_to_bytes(words),
                words =~= seq![self.verts@.len() as u32] + vertex_words(self.verts@.take(i as int)),
            decreases self.verts@.len() - i,
        {
            let v = self.verts[i];
            write_word(&mut out, v.x, Ghost(words));
            write_word(&mut out, v.y, Ghost(words.push(v.x)));
            write_word(&mut out, v.z, Ghost(words.push(v.x).push(v.y)));
            proof {
                let before = self.verts@.take(i as int);
                let after = self.verts@.take(i + 1);
                let grown = words.push(v.x).push(v.y).push(v.z);
                assert(vertex_words(after) =~= vertex_words(before).push(v.x).push(v.y).push(
                    v.z,
                )) by {
                    assert forall|k: int| 0 <= k < 3 * before.len() implies vertex_words(after)[k]
                        == vertex_words(before)[k] by {
                        assert(after[k / 3] == before[k / 3]);
                    }
                    assert(after[i as int] == v);
                }
                words = grown;
            }
            i += 1;
        }
        proof {
            assert(self.verts@.take(i as int) == self.verts@);
        }
        write_word(&mut out, self.indices.len() as u32, Ghost(words));
        proof {
            words = words.push(self.indices.len() as u32);
        }
        let ghost head = words;
        let mut j: usize = 0;
        while j < self.indices.len()
            invariant
                j <= self.indices@.len(),
                out@ == words_to_bytes(words),
                words =~= head + self.indices@.take(j as int),
            decreases self.indices@.len() - j,
        {
            write_word(&mut out, self.indices[j], Ghost(words));
            proof {
                assert(self.indices@.take(j + 1) =~= self.indices@.take(j as int).push(
                    self.indices@[j as int],
                ));
                words = words.push(self.indices@[j as int]);
            }
            j += 1;
        }
        proof {
            assert(self.indices@.take(j as int) == self.indices@);
        }
        write_word(&mut out, self.uvs.len() as u32, Ghost(words));
        proof {
            words = words.push(self.uvs.len() as u32);
        }
        let ghost head = words;
        let mut k: usize = 0;
        while k < self.uvs.len()
            invariant
                k <= self.uvs@.len(),
                out@ == words_to_bytes(words),
                words =~= head + self.uvs@.take(k as int),
            decreases self.uvs@.len() - k,
        {
            write_word(&mut out, self.uvs[k], Ghost(words));
            proof {
                assert(self.uvs@.take(k + 1) =~= self.uvs@.take(k as int).push(
                    self.uvs@[k as int],
                ));
                words = words.push(self.uvs@[k as int]);
            }
            k += 1;
        }
        proof {
            assert(self.uvs@.take(k as int) == self.uvs@);
            assert(words =~= model_words(self@));
        }
        Ok(out)
    }
}

} // verus!
