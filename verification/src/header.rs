use vstd::prelude::*;
use vstd::utf8::*;

verus! {

/// A byte that may stand in a header value read as text: a visible ASCII
/// character, a space or a tab.
pub open spec fn visible_ascii(b: u8) -> bool {
    (32 <= b && b < 127) || b == 9
}

/// Every byte is [`visible_ascii`].
pub open spec fn all_visible(b: Seq<u8>) -> bool {
    forall|i: int| 0 <= i < b.len() ==> #[trigger] visible_ascii(b[i])
}

/// The characters that ASCII bytes stand for, one per byte.
pub open spec fn ascii_chars(b: Seq<u8>) -> Seq<char> {
    Seq::new(b.len(), |i: int| b[i] as char)
}

/// What the `token` header of a request holds.
pub enum TokenHeader {
    /// The request has no `token` header.
    Missing,
    /// The header holds a byte that is not visible ASCII.
    Malformed,
    /// The header read as text.
    Present(String),
}

/// Abstract value of [`TokenHeader`].
pub enum TokenHeaderView {
    Missing,
    Malformed,
    Present(Seq<char>),
}

impl View for TokenHeader {
    type V = TokenHeaderView;

    open spec fn view(&self) -> TokenHeaderView {
        match self {
            TokenHeader::Missing => TokenHeaderView::Missing,
            TokenHeader::Malformed => TokenHeaderView::Malformed,
            TokenHeader::Present(t) => TokenHeaderView::Present(t@),
        }
    }
}

/// What the raw bytes of an optional `token` header read as.
pub open spec fn token_header_of(raw: Option<Seq<u8>>) -> TokenHeaderView {
    match raw {
        None => TokenHeaderView::Missing,
        Some(b) => if all_visible(b) {
            TokenHeaderView::Present(ascii_chars(b))
        } else {
            TokenHeaderView::Malformed
        },
    }
}

/// Sequence view of optional raw bytes.
pub open spec fn raw_view(raw: Option<Vec<u8>>) -> Option<Seq<u8>> {
    match raw {
        Some(b) => Some(b@),
        None => None,
    }
}

/// Calls `String::from_utf8`, which std documents to succeed exactly on valid
/// UTF-8 and then to hold the characters that the bytes encode.
#[verifier::external_body]
fn string_from_utf8(bytes: Vec<u8>) -> (r: Option<String>)
    ensures
        r is Some <==> valid_utf8(bytes@),
        r matches Some(s) ==> s@ == decode_utf8(bytes@),
{
    match String::from_utf8(bytes) {
        Ok(s) => Some(s),
        Err(_) => None,
    }
}

/// ASCII bytes are valid UTF-8 and decode to one character per byte.
proof fn lemma_ascii_utf8(b: Seq<u8>)
    requires
        forall|i: int| 0 <= i < b.len() ==> #[trigger] b[i] < 128,
    ensures
        valid_utf8(b),
        decode_utf8(b) == ascii_chars(b),
    decreases b.len(),
{
    if b.len() > 0 {
        let b0 = b[0];
        assert(b0 < 128);
        assert((b0 & 0x7f) == b0) by (bit_vector)
            requires
                b0 < 128,
        ;
        assert(valid_first_scalar(b));
        let rest = b.subrange(1, b.len() as int);
        assert(pop_first_scalar(b) == rest);
        assert forall|i: int| 0 <= i < rest.len() implies #[trigger] rest[i] < 128 by {
            assert(rest[i] == b[i + 1]);
        }
        lemma_ascii_utf8(rest);
        assert(decode_utf8(b) =~= ascii_chars(b));
    } else {
        assert(decode_utf8(b) =~= ascii_chars(b));
    }
}

/// Reads the `token` header as text, as `HeaderValue::to_str` does: missing
/// stays missing, a header with a byte that is not visible ASCII is malformed,
/// any other is its bytes read as characters.
pub fn read_token_header(raw: Option<Vec<u8>>) -> (r: TokenHeader)
    ensures
        r@ == token_header_of(raw_view(raw)),
{
    match raw {
        None => TokenHeader::Missing,
        Some(bytes) => {
            let mut i: usize = 0;
            while i < bytes.len()
                invariant
                    i <= bytes.len(),
                    raw_view(raw) == Some(bytes@),
                    forall|j: int| 0 <= j < i ==> #[trigger] visible_ascii(bytes@[j]),
                decreases bytes.len() - i,
            {
                let b = bytes[i];
                if !((32 <= b && b < 127) || b == 9) {
                    assert(!visible_ascii(bytes@[i as int]));
                    assert(!all_visible(bytes@));
                    return TokenHeader::Malformed;
                }
                i = i + 1;
            }
            proof {
                assert forall|j: int| 0 <= j < bytes@.len() implies #[trigger] bytes@[j] < 128 by {
                    assert(visible_ascii(bytes@[j]));
                }
                lemma_ascii_utf8(bytes@);
            }
            let ghost seen = bytes@;
            match string_from_utf8(bytes) {
                Some(s) => TokenHeader::Present(s),
                None => {
                    proof {
                        assert(valid_utf8(seen));
                    }
                    TokenHeader::Malformed
                },
            }
        },
    }
}

} // verus!
