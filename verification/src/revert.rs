//! The revert-reason decoder.
//!
//! A failed contract call returns an arbitrary ABI-encoded byte payload.
//! The decoder classifies it leniently against the standard Solidity error
//! shapes — `Error(string)`, `Panic(uint256)`, or an unrecognized custom
//! error — and renders the human-readable message for each.
//!
//! Decoding is deliberately lenient, since the payload comes from untrusted
//! contract bytecode: trailing bytes beyond the first valid argument are
//! ignored, and a payload whose selector matches a standard shape but whose
//! argument cannot be read even leniently falls back to the unrecognized
//! custom error rendering.  The classification below is total, so no other
//! decode failure can arise.  The one exception is a panic payload whose
//! code exceeds 64 bits: the codec guarantees small panic constants, so such
//! a payload is a programming-invariant violation and is ruled out by the
//! callers rather than coerced into a message.

use vstd::prelude::*;

verus! {

use crate::bigend::be_bytes;
use crate::bigend::lemma_pow256_vals;
use crate::bigend::pow256;
use crate::bigend::read_be_word;
use crate::text::dec_of;
use crate::text::hex_of;
use crate::text::u64_to_dec;
use crate::text::hex_encode;
use vstd::pervasive::unreached;
use vstd::slice::slice_index_get;
use vstd::slice::slice_subrange;
use vstd::string::StringExecFns;

/// What `String::from_utf8_lossy` makes of a byte string: a function of the
/// bytes alone.
pub uninterp spec fn lossy_utf8(bytes: Seq<u8>) -> Seq<char>;

/// Decodes bytes as UTF-8, replacing invalid sequences.
///
/// Relies on `String::from_utf8_lossy` of std: the result depends on the
/// bytes alone, invalid sequences become replacement characters, and ASCII
/// bytes decode to themselves.
#[verifier::external_body]
fn utf8_lossy(bytes: &[u8]) -> (r: String)
    ensures
        r@ == lossy_utf8(bytes@),
        (forall|i: int| 0 <= i < bytes@.len() ==> bytes@[i] < 128) ==> r@ == Seq::new(
            bytes@.len(),
            |i: int| bytes@[i] as char,
        ),
{
    String::from_utf8_lossy(bytes).into_owned()
}

/// The four-byte selector of the `Error(string)` revert shape.
pub open spec fn error_string_selector(out: Seq<u8>) -> bool {
    out.len() >= 4 && out[0] == 0x08 && out[1] == 0xc3 && out[2] == 0x79 && out[3] == 0xa0
}

/// The four-byte selector of the `Panic(uint256)` revert shape.
pub open spec fn panic_selector(out: Seq<u8>) -> bool {
    out.len() >= 4 && out[0] == 0x4e && out[1] == 0x48 && out[2] == 0x7b && out[3] == 0x71
}

/// A lenient read of an ABI-encoded string argument succeeds when the head
/// word points at a length word and that many bytes follow it; padding and
/// trailing bytes are not checked.
pub open spec fn string_payload_ok(p: Seq<u8>) -> bool {
    p.len() >= 32 && {
        let off = be_bytes(p.take(32));
        &&& off + 32 <= p.len()
        &&& off + 32 + be_bytes(p.subrange(off as int, off as int + 32)) <= p.len()
    }
}

/// The raw bytes of the string argument of an `Error(string)` payload.
pub open spec fn string_payload_bytes(p: Seq<u8>) -> Seq<u8> {
    let off = be_bytes(p.take(32));
    let slen = be_bytes(p.subrange(off as int, off as int + 32));
    p.subrange(off as int + 32, off as int + 32 + slen as int)
}

/// A `Panic(uint256)` payload leniently holds a code when a full word
/// follows the selector.
pub open spec fn panic_payload_ok(out: Seq<u8>) -> bool {
    out.len() >= 36
}

/// The panic code carried by a `Panic(uint256)` payload.
pub open spec fn panic_code(out: Seq<u8>) -> nat {
    be_bytes(out.subrange(4, 36))
}

/// Rendering is total except for a panic payload whose code exceeds 64
/// bits; the codec guarantees small panic constants, so such a payload is a
/// programming-invariant violation and stays outside the contract.
pub open spec fn renderable(out: Seq<u8>) -> bool {
    panic_selector(out) && panic_payload_ok(out) ==> panic_code(out) < pow256(8)
}

/// The fixed description of each recognized panic code.
pub open spec fn spec_panic_reason(code: nat) -> Seq<char> {
    if code == 0x1 {
        "Assertion error"@
    } else if code == 0x11 {
        "Arithmetic operation underflowed or overflowed outside of an unchecked block"@
    } else if code == 0x12 {
        "Division or modulo division by zero"@
    } else if code == 0x21 {
        "Tried to convert a value into an enum, but the value was too big or negative"@
    } else if code == 0x22 {
        "Incorrectly encoded storage byte array"@
    } else if code == 0x31 {
        ".pop() was called on an empty array"@
    } else if code == 0x32 {
        "Array accessed at an out-of-bounds or negative index"@
    } else if code == 0x41 {
        "Too much memory was allocated, or an array was created that is too large"@
    } else if code == 0x51 {
        "Called a zero-initialized variable of internal function type"@
    } else {
        "Unknown panic code"@
    }
}

/// Looks a panic code up in the fixed table; a code outside the table maps
/// to the generic description.
pub fn panic_code_to_error_reason(error_code: u64) -> (r: &'static str)
    ensures
        r@ == spec_panic_reason(error_code as nat),
{
    if error_code == 0x1 {
        "Assertion error"
    } else if error_code == 0x11 {
        "Arithmetic operation underflowed or overflowed outside of an unchecked block"
    } else if error_code == 0x12 {
        "Division or modulo division by zero"
    } else if error_code == 0x21 {
        "Tried to convert a value into an enum, but the value was too big or negative"
    } else if error_code == 0x22 {
        "Incorrectly encoded storage byte array"
    } else if error_code == 0x31 {
        ".pop() was called on an empty array"
    } else if error_code == 0x32 {
        "Array accessed at an out-of-bounds or negative index"
    } else if error_code == 0x41 {
        "Too much memory was allocated, or an array was created that is too large"
    } else if error_code == 0x51 {
        "Called a zero-initialized variable of internal function type"
    } else {
        "Unknown panic code"
    }
}

/// The message rendered for the output bytes of a reverted call.
pub open spec fn spec_revert_message(out: Seq<u8>) -> Seq<char> {
    if out.len() == 0 {
        "Transaction reverted without a reason"@
    } else if error_string_selector(out) && string_payload_ok(out.skip(4)) {
        "reverted with reason string '"@ + lossy_utf8(string_payload_bytes(out.skip(4)))
            + "'"@
    } else if panic_selector(out) && panic_payload_ok(out) {
        "VM Exception while processing transaction: reverted with panic code "@ + dec_of(
            panic_code(out),
        ) + " ("@ + spec_panic_reason(panic_code(out)) + ")"@
    } else {
        "VM Exception while processing transaction: reverted with an unrecognized custom error (return data: 0x"@
            + hex_of(out) + ")"@
    }
}

/// Reads the string argument of an `Error(string)` payload leniently, and
/// reports exactly when the payload does not hold one.
fn decode_string_reason(output: &[u8]) -> (r: Option<String>)
    requires
        error_string_selector(output@),
    ensures
        r is Some <==> string_payload_ok(output@.skip(4)),
        r matches Some(s) ==> s@ == lossy_utf8(string_payload_bytes(output@.skip(4))),
{
    let ghost p = output@.skip(4);
    let n: usize = output.len();
    if n < 36 {
        return None;
    }
    proof {
        assert(output@.subrange(4, 36) =~= p.take(32));
        lemma_pow256_vals();
    }
    let off64 = match read_be_word(output, 4) {
        None => {
            return None;
        },
        Some(v) => v,
    };
    if off64 > (n - 36) as u64 {
        return None;
    }
    let off = off64 as usize;
    proof {
        assert(output@.subrange(4 + off as int, 36 + off as int) =~= p.subrange(
            off as int,
            off as int + 32,
        ));
    }
    let slen64 = match read_be_word(output, 4 + off) {
        None => {
            return None;
        },
        Some(v) => v,
    };
    if slen64 > (n - 36 - off) as u64 {
        return None;
    }
    let slen = slen64 as usize;
    let sbytes = slice_subrange(output, 36 + off, 36 + off + slen);
    proof {
        assert(sbytes@ =~= string_payload_bytes(p));
    }
    Some(utf8_lossy(sbytes))
}

/// An output without bytes always renders as the fixed no-reason message.
pub proof fn lemma_empty_output_message(out: Seq<u8>)
    requires
        out.len() == 0,
    ensures
        spec_revert_message(out) == "Transaction reverted without a reason"@,
{
}

/// A panic code outside the fixed table always maps to the generic
/// description.
pub proof fn lemma_unknown_panic_code(code: nat)
    requires
        code != 0x1,
        code != 0x11,
        code != 0x12,
        code != 0x21,
        code != 0x22,
        code != 0x31,
        code != 0x32,
        code != 0x41,
        code != 0x51,
    ensures
        spec_panic_reason(code) == "Unknown panic code"@,
{
}

/// Decides whether `revert_error` accepts the output bytes: only a panic
/// payload whose code exceeds 64 bits is refused.
pub fn output_renderable(output: &[u8]) -> (b: bool)
    ensures
        b == renderable(output@),
{
    let n: usize = output.len();
    if n >= 36 {
        let b0 = *slice_index_get(output, 0);
        let b1 = *slice_index_get(output, 1);
        let b2 = *slice_index_get(output, 2);
        let b3 = *slice_index_get(output, 3);
        if b0 == 0x4e && b1 == 0x48 && b2 == 0x7b && b3 == 0x71 {
            match read_be_word(output, 4) {
                Some(_) => true,
                None => false,
            }
        } else {
            true
        }
    } else {
        true
    }
}

/// Renders the output bytes of a reverted call as a human-readable message,
/// matching the reference client's wording exactly.
pub fn revert_error(output: &[u8]) -> (s: String)
    requires
        renderable(output@),
    ensures
        s@ == spec_revert_message(output@),
{
    let n: usize = output.len();
    if n == 0 {
        return String::from_str("Transaction reverted without a reason");
    }
    if n >= 4 {
        let b0 = *slice_index_get(output, 0);
        let b1 = *slice_index_get(output, 1);
        let b2 = *slice_index_get(output, 2);
        let b3 = *slice_index_get(output, 3);
        if b0 == 0x08 && b1 == 0xc3 && b2 == 0x79 && b3 == 0xa0 {
            match decode_string_reason(output) {
                Some(reason) => {
                    let mut s = String::from_str("reverted with reason string '");
                    s.append(reason.as_str());
                    s.append("'");
                    return s;
                },
                None => {},
            }
        } else if b0 == 0x4e && b1 == 0x48 && b2 == 0x7b && b3 == 0x71 {
            if n >= 36 {
                match read_be_word(output, 4) {
                    Some(code) => {
                        let mut s = String::from_str(
                            "VM Exception while processing transaction: reverted with panic code ",
                        );
                        s.append(u64_to_dec(code).as_str());
                        s.append(" (");
                        s.append(panic_code_to_error_reason(code));
                        s.append(")");
                        return s;
                    },
                    None => {
                        return unreached();
                    },
                }
            }
        }
    }
    let mut s = String::from_str(
        "VM Exception while processing transaction: reverted with an unrecognized custom error (return data: 0x",
    );
    s.append(hex_encode(output).as_str());
    s.append(")");
    s
}

} // verus!
