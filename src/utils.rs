//! Log message framing and trace inspection.
use vstd::prelude::*;
use crate::text::push_text;
use vstd::utf8::encode_utf8;

verus! {

/// The tag every message of this service starts with.
pub open spec fn kroma_header() -> Seq<char> {
    seq!['[', 'K', 'R', 'O', 'M', 'A', ']', ' ']
}

/// Frames a log message: `[KROMA] <msg>`.
pub fn kroma_msg(msg: &str) -> (r: String)
    ensures
        r@ == kroma_header() + msg@,
{
    let mut s = String::new();
    proof {
        reveal_strlit("[KROMA] ");
    }
    push_text(&mut s, "[KROMA] ");
    push_text(&mut s, msg);
    s
}

/// Whether `needle` occurs in `hay` at position `i`.
pub open spec fn occurs_at(hay: Seq<u8>, needle: Seq<u8>, i: int) -> bool {
    0 <= i && i + needle.len() <= hay.len() && hay.subrange(i, i + needle.len()) == needle
}

pub open spec fn contains_bytes(hay: Seq<u8>, needle: Seq<u8>) -> bool {
    exists|i: int| occurs_at(hay, needle, i)
}

/// Whether the byte string `needle` occurs in `hay`.
pub fn find_bytes(hay: &[u8], needle: &[u8]) -> (r: bool)
    ensures
        r == contains_bytes(hay@, needle@),
{
    let n = hay.len();
    let m = needle.len();
    if m > n {
        assert forall|i: int| !occurs_at(hay@, needle@, i) by {}
        return false;
    }
    let mut i: usize = 0;
    while i <= n - m
        invariant
            n == hay@.len(),
            m == needle@.len(),
            m <= n,
            i <= n - m + 1,
            forall|k: int| 0 <= k < i ==> !occurs_at(hay@, needle@, k),
        decreases n - m + 1 - i,
    {
        let mut j: usize = 0;
        let mut same = true;
        while j < m && same
            invariant
                n == hay@.len(),
                m == needle@.len(),
                i + m <= n,
                j <= m,
                same <==> (forall|k: int| 0 <= k < j ==> hay@[i + k] == needle@[k]),
            decreases m - j,
        {
            if hay[i + j] != needle[j] {
                same = false;
            }
            j = j + 1;
        }
        if same {
            assert(hay@.subrange(i as int, i + m) =~= needle@);
            assert(occurs_at(hay@, needle@, i as int));
            return true;
        }
        assert(!occurs_at(hay@, needle@, i as int)) by {
            if hay@.subrange(i as int, i + m) == needle@ {
                assert forall|k: int| 0 <= k < j implies hay@[i + k] == needle@[k] by {
                    assert(hay@.subrange(i as int, i + m)[k] == hay@[i + k]);
                }
            }
        }
        i = i + 1;
    }
    assert forall|k: int| !occurs_at(hay@, needle@, k) by {
        if 0 <= k < i {
        }
    }
    false
}

/// Whether a trace, given as JSON text, uses an opcode that the circuit does
/// not support yet (`TSTORE`, `TLOAD` or `MCOPY`).
pub fn is_cancun_trace(trace_json: &String) -> (r: bool)
    ensures
        r == (contains_bytes(encode_utf8(trace_json@), encode_utf8("TSTORE"@))
            || contains_bytes(encode_utf8(trace_json@), encode_utf8("TLOAD"@))
            || contains_bytes(encode_utf8(trace_json@), encode_utf8("MCOPY"@))),
{
    let text = trace_json.as_str().as_bytes();
    find_bytes(text, "TSTORE".as_bytes()) || find_bytes(text, "TLOAD".as_bytes()) || find_bytes(
        text,
        "MCOPY".as_bytes(),
    )
}

} // verus!
