//! Plain command-line data, and the digits-only port parse the server's
//! listen option and `PORT` environment variable use.
//!
//! The argument-parser attributes live with the binaries; these are the
//! bare shapes the drivers consume.

use vstd::prelude::*;

use vstd::string::StringSliceAdditionalSpecFns;

verus! {

/// The client's subcommands.
pub enum Command {
    Register(RegisterCommand),
    Login(LoginCommand),
}

/// Options for registering a new user; missing fields are prompted for.
pub struct RegisterCommand {
    pub username: Option<String>,
    pub password: Option<String>,
    pub server: ServerOptions,
}

/// Options for logging in an existing user; missing fields are
/// prompted for.
pub struct LoginCommand {
    pub username: Option<String>,
    pub password: Option<String>,
    pub server: ServerOptions,
}

/// Where the client connects.
pub struct ServerOptions {
    pub addr: String,
}

/// An ASCII decimal digit.
pub open spec fn is_digit(b: u8) -> bool {
    48 <= b <= 57
}

/// Every byte is a decimal digit.
pub open spec fn all_digits(s: Seq<u8>) -> bool {
    forall|i: int| 0 <= i < s.len() ==> is_digit(#[trigger] s[i])
}

/// The value of one digit byte.
pub open spec fn digit_val(b: u8) -> nat {
    if is_digit(b) {
        (b - 48) as nat
    } else {
        0
    }
}

/// The number a string of decimal digit bytes denotes.
pub open spec fn dec_val(s: Seq<u8>) -> nat
    decreases s.len(),
{
    if s.len() == 0 {
        0
    } else {
        dec_val(s.drop_last()) * 10 + digit_val(s.last())
    }
}

/// A longer digit string never denotes less than its prefix.
proof fn lemma_dec_val_prefix(s: Seq<u8>, i: int)
    requires
        0 <= i <= s.len(),
    ensures
        dec_val(s) >= dec_val(s.take(i)),
    decreases s.len() - i,
{
    if i < s.len() {
        lemma_dec_val_prefix(s, i + 1);
        assert(s.take(i + 1).drop_last() =~= s.take(i));
        assert(dec_val(s.take(i + 1)) >= dec_val(s.take(i)));
    } else {
        assert(s.take(i) =~= s);
    }
}

/// Parse a digits-only decimal port number: `Some` exactly when the
/// string is non-empty, holds only ASCII digits, and denotes a value
/// that fits a `u16`.
pub fn parse_port(s: &str) -> (r: Option<u16>)
    ensures
        match r {
            Some(v) => s.spec_bytes().len() > 0 && all_digits(s.spec_bytes()) && v as nat
                == dec_val(s.spec_bytes()),
            None => s.spec_bytes().len() == 0 || !all_digits(s.spec_bytes()) || dec_val(
                s.spec_bytes(),
            ) > 65535,
        },
{
    let bytes = s.as_bytes();
    if bytes.len() == 0 {
        return None;
    }
    let mut acc: u32 = 0;
    let mut i: usize = 0;
    while i < bytes.len()
        invariant
            i <= bytes@.len(),
            bytes@ == s.spec_bytes(),
            all_digits(bytes@.take(i as int)),
            acc as nat == dec_val(bytes@.take(i as int)),
            acc <= 65535,
        decreases bytes@.len() - i,
    {
        let b = bytes[i];
        if b < 48 || b > 57 {
            return None;
        }
        let next: u32 = acc * 10 + (b - 48) as u32;
        proof {
            assert(bytes@.take(i as int + 1).drop_last() =~= bytes@.take(i as int));
            assert(bytes@.take(i as int + 1).last() == b);
        }
        if next > 65535 {
            proof {
                lemma_dec_val_prefix(bytes@, i as int + 1);
            }
            return None;
        }
        acc = next;
        i += 1;
    }
    proof {
        assert(bytes@.take(bytes@.len() as int) =~= bytes@);
    }
    Some(acc as u16)
}

} // verus!
