//! Byte-level semantics of snapshot content.
//!
//! A snapshot is a plain sequence of bytes. Reads deliver a range clipped to
//! the snapshot's length; positional writes overwrite in place, extending the
//! snapshot (zero-filling any gap) when the write reaches past its end, as a
//! positional write on a native descriptor does.

use vstd::prelude::*;

verus! {

/// The bytes a read of at most `size` bytes at `offset` returns from
/// `content`: the range `[offset, min(len, offset + size))`, empty when
/// `offset` is at or past the end.
pub open spec fn spec_read_range(content: Seq<u8>, offset: nat, size: nat) -> Seq<u8> {
    if offset >= content.len() {
        Seq::empty()
    } else if offset + size <= content.len() {
        content.subrange(offset as int, (offset + size) as int)
    } else {
        content.subrange(offset as int, content.len() as int)
    }
}

/// `content` after writing `data` at byte position `offset`: bytes of `data`
/// replace the range they cover, bytes outside it are kept, and a write past
/// the end extends the content, zero-filling any gap. Writing no bytes
/// changes nothing (in particular, it never extends the content).
pub open spec fn spec_write_at(content: Seq<u8>, offset: nat, data: Seq<u8>) -> Seq<u8> {
    if data.len() == 0 {
        content
    } else {
        Seq::new(
            if offset + data.len() > content.len() {
                offset + data.len()
            } else {
                content.len()
            },
            |i: int| if offset <= i < offset + data.len() {
                data[i - offset]
            } else if i < content.len() {
                content[i]
            } else {
                0u8
            },
        )
    }
}

/// Copy `content[start..end]` out into a fresh vector.
pub fn copy_range(content: &Vec<u8>, start: usize, end: usize) -> (r: Vec<u8>)
    requires
        start <= end <= content@.len(),
    ensures
        r@ == content@.subrange(start as int, end as int),
{
    let mut r: Vec<u8> = Vec::new();
    let mut i: usize = start;
    while i < end
        invariant
            start <= i <= end <= content@.len(),
            r@ =~= content@.subrange(start as int, i as int),
        decreases end - i,
    {
        r.push(content[i]);
        proof {
            assert(content@.subrange(start as int, i + 1)
                =~= content@.subrange(start as int, i as int).push(content@[i as int]));
        }
        i = i + 1;
    }
    proof {
        assert(r@ =~= content@.subrange(start as int, end as int));
    }
    r
}

/// Apply a positional write: build the content that results from writing
/// `data` at `offset` into `content`.
pub fn write_at(content: &Vec<u8>, offset: usize, data: &Vec<u8>) -> (r: Vec<u8>)
    requires
        offset + data@.len() <= usize::MAX,
    ensures
        r@ == spec_write_at(content@, offset as nat, data@),
{
    let dlen = data.len();
    let new_len: usize = if dlen == 0 {
        content.len()
    } else if offset + dlen > content.len() {
        offset + dlen
    } else {
        content.len()
    };
    let ghost target = spec_write_at(content@, offset as nat, data@);
    let mut r: Vec<u8> = Vec::new();
    let mut i: usize = 0;
    while i < new_len
        invariant
            i <= new_len,
            new_len == target.len(),
            dlen == data@.len(),
            target == spec_write_at(content@, offset as nat, data@),
            offset + dlen <= usize::MAX,
            r@.len() == i,
            forall|k: int| 0 <= k < i ==> r@[k] == target[k],
        decreases new_len - i,
    {
        let b: u8 = if dlen > 0 && offset <= i && i < offset + dlen {
            data[i - offset]
        } else if i < content.len() {
            content[i]
        } else {
            0
        };
        r.push(b);
        i = i + 1;
    }
    proof {
        assert(r@ =~= target);
    }
    r
}

/// Compare two byte vectors for equality of their contents.
pub fn bytes_eq(a: &Vec<u8>, b: &Vec<u8>) -> (r: bool)
    ensures
        r == (a@ == b@),
{
    if a.len() != b.len() {
        return false;
    }
    let mut i: usize = 0;
    while i < a.len()
        invariant
            i <= a@.len(),
            a@.len() == b@.len(),
            forall|k: int| 0 <= k < i ==> a@[k] == b@[k],
        decreases a@.len() - i,
    {
        if a[i] != b[i] {
            return false;
        }
        i = i + 1;
    }
    proof {
        assert(a@ =~= b@);
    }
    true
}

} // verus!
