use vstd::prelude::*;
use vstd::string::*;

verus! {

/// The extension of a comment document.
pub const DOCUMENT_EXTENSION: &'static str = ".json";

/// The lowercase hexadecimal digit of a value below 16.
pub open spec fn hex_digit(d: int) -> char {
    seq!['0', '1', '2', '3', '4', '5', '6', '7', '8', '9', 'a', 'b', 'c', 'd', 'e', 'f'][d]
}

/// The last `count` hexadecimal digits of `n`, most significant first.
pub open spec fn hex_digits(n: nat, count: nat) -> Seq<char>
    decreases count,
{
    if count == 0 {
        Seq::empty()
    } else {
        hex_digits(n / 16, (count - 1) as nat).push(hex_digit((n % 16) as int))
    }
}

/// The canonical form of an identifier: its 32 lowercase hexadecimal digits.
pub open spec fn id_hex(id: u128) -> Seq<char> {
    hex_digits(id as nat, 32)
}

/// The name of the document that holds the comment with identifier `id`.
pub open spec fn document_name(id: u128) -> Seq<char> {
    id_hex(id) + DOCUMENT_EXTENSION@
}

/// Characters that may stand in a key built from a path.
pub open spec fn is_key_char(c: char) -> bool {
    ('0' <= c && c <= '9') || ('A' <= c && c <= 'Z') || ('a' <= c && c <= 'z') || c == '/' || c
        == '-'
}

/// The key of a path: its allowed characters, in their order.
pub open spec fn path_key(path: Seq<char>) -> Seq<char> {
    path.filter(|c: char| is_key_char(c))
}

/// Relies on `uuid::Uuid::from_u128` (big-endian bytes) and the `Display` of
/// `Uuid::as_simple`, which writes the 32 lowercase hexadecimal digits of the
/// bytes in order.
#[verifier::external_body]
fn simple_uuid(id: u128) -> (r: String)
    ensures
        r@ == hex_digits(id as nat, 32),
{
    uuid::Uuid::from_u128(id).as_simple().to_string()
}

/// The file name of the document for the comment with identifier `id`.
pub fn document_file_name(id: u128) -> (r: String)
    ensures
        r@ == document_name(id),
{
    let mut name = simple_uuid(id);
    name.append(DOCUMENT_EXTENSION);
    name
}

fn is_allowed_key_char(c: char) -> (r: bool)
    ensures
        r == is_key_char(c),
{
    ('0' <= c && c <= '9') || ('A' <= c && c <= 'Z') || ('a' <= c && c <= 'z') || c == '/' || c
        == '-'
}

/// Strips every character outside `[0-9A-Za-z/-]` from a path, keeping the
/// order of the rest, so that the result is safe to use as a key.
pub fn sanitize_path(path: &str) -> (r: String)
    ensures
        r@ == path_key(path@),
{
    let n = path.unicode_len();
    let mut out = String::new();
    let mut i: usize = 0;
    while i < n
        invariant
            n == path@.len(),
            0 <= i <= n,
            out@ == path_key(path@.subrange(0, i as int)),
        decreases n - i,
    {
        let c = path.get_char(i);
        proof {
            assert(path@.subrange(0, i as int + 1) =~= path@.subrange(0, i as int).push(c));
            path@.subrange(0, i as int).lemma_filter_push(c, |c: char| is_key_char(c));
        }
        if is_allowed_key_char(c) {
            let piece = path.substring_char(i, i + 1);
            proof {
                assert(piece@ =~= seq![c]);
            }
            out.append(piece);
        }
        i = i + 1;
    }
    proof {
        assert(path@.subrange(0, n as int) =~= path@);
    }
    out
}

} // verus!
