//! The per-caller last-error record and the reading of C text arguments.
//!
//! Every operation clears the record on entry and fills it when it fails;
//! the record never holds a NUL character, so it always converts to a C
//! string.

use vstd::prelude::*;
use vstd::string::*;
use vstd::utf8::*;
use crate::abi::FeagiStatus;
use crate::text::{owned, push_char, utf8_str};

verus! {

/// The message of the last failed operation, if any.
pub struct LastError {
    pub message: Option<String>,
}

impl View for LastError {
    type V = Option<Seq<char>>;

    open spec fn view(&self) -> Option<Seq<char>> {
        match self.message {
            Some(m) => Some(m@),
            None => None,
        }
    }
}

/// `s` with every NUL replaced by the two characters `\0`.
pub open spec fn sanitize(s: Seq<char>) -> Seq<char>
    decreases s.len(),
{
    if s.len() == 0 {
        s
    } else if s.last() == '\0' {
        sanitize(s.drop_last()) + seq!['\\', '0']
    } else {
        sanitize(s.drop_last()).push(s.last())
    }
}

/// The record holds `message`, as `set_last_error` stores it.
pub open spec fn records(e: LastError, message: Seq<char>) -> bool {
    e@ == Some(sanitize(message))
}

impl LastError {
    /// An empty record.
    pub fn new() -> (e: Self)
        ensures
            e@ is None,
    {
        LastError { message: None }
    }
}

/// Forgets the last error.
pub fn clear_last_error(last_error: &mut LastError)
    ensures
        final(last_error)@ is None,
{
    last_error.message = None;
}

/// Records `message` as the last error, with NUL characters escaped.
pub fn set_last_error(last_error: &mut LastError, message: &str)
    ensures
        records(*final(last_error), message@),
{
    let n = message.unicode_len();
    let mut out = String::new();
    let mut i: usize = 0;
    while i < n
        invariant
            n == message@.len(),
            i <= n,
            out@ == sanitize(message@.take(i as int)),
        decreases n - i,
    {
        let c = message.get_char(i);
        assert(message@.take(i + 1).drop_last() =~= message@.take(i as int));
        if c == '\0' {
            push_char(&mut out, '\\');
            push_char(&mut out, '0');
            assert(out@ =~= sanitize(message@.take(i as int)) + seq!['\\', '0']);
        } else {
            push_char(&mut out, c);
        }
        i = i + 1;
    }
    assert(message@.take(n as int) =~= message@);
    last_error.message = Some(out);
}

/// A sanitized message holds no NUL character.
pub proof fn lemma_sanitize_has_no_nul(s: Seq<char>)
    ensures
        forall|i: int| 0 <= i < sanitize(s).len() ==> sanitize(s)[i] != '\0',
    decreases s.len(),
{
    if s.len() > 0 {
        lemma_sanitize_has_no_nul(s.drop_last());
        let p = sanitize(s.drop_last());
        if s.last() == '\0' {
            assert forall|i: int| 0 <= i < sanitize(s).len() implies sanitize(s)[i] != '\0' by {
                if i >= p.len() {
                    assert(sanitize(s)[i] == seq!['\\', '0'][i - p.len()]);
                }
            }
        } else {
            assert forall|i: int| 0 <= i < sanitize(s).len() implies sanitize(s)[i] != '\0' by {
                if i < p.len() {
                    assert(sanitize(s)[i] == p[i]);
                }
            }
        }
    }
}

/// Sanitizing leaves a message without NUL characters as it is.
pub proof fn lemma_sanitize_keeps_plain_text(s: Seq<char>)
    requires
        forall|i: int| 0 <= i < s.len() ==> s[i] != '\0',
    ensures
        sanitize(s) == s,
    decreases s.len(),
{
    if s.len() > 0 {
        lemma_sanitize_keeps_plain_text(s.drop_last());
        assert(s.drop_last().push(s.last()) =~= s);
    }
}

/// The bytes of a C text argument, `None` where the caller passed a null pointer.
pub open spec fn c_bytes(arg: Option<&[u8]>) -> Option<Seq<u8>> {
    match arg {
        Some(b) => Some(b@),
        None => None,
    }
}

/// What reading a C text argument gives: its characters, or the status that
/// rejects it.
pub open spec fn c_text(arg: Option<Seq<u8>>) -> Result<Seq<char>, FeagiStatus> {
    match arg {
        None => Err(FeagiStatus::NullPointer),
        Some(b) => if valid_utf8(b) {
            Ok(decode_utf8(b))
        } else {
            Err(FeagiStatus::InvalidUtf8)
        },
    }
}

/// The message that rejects a C text argument named `name`.
pub open spec fn c_text_error(arg: Option<Seq<u8>>, name: Seq<char>) -> Seq<char> {
    match arg {
        None => name + " must not be null"@,
        Some(_) => name + " must be valid UTF-8"@,
    }
}

/// The message that rejects an absent argument named `name`.
pub open spec fn null_message(name: Seq<char>) -> Seq<char> {
    name + " must not be null"@
}

/// Reads a C text argument: absent arguments and malformed UTF-8 are
/// rejected and recorded; an accepted argument leaves the record as it was.
pub fn cstr_to_string(arg: Option<&[u8]>, arg_name: &str, last_error: &mut LastError) -> (r:
    Result<String, FeagiStatus>)
    ensures
        match c_text(c_bytes(arg)) {
            Ok(s) => r matches Ok(t) && t@ == s && final(last_error)@ == old(last_error)@,
            Err(status) => r == Err::<String, FeagiStatus>(status) && records(
                *final(last_error),
                c_text_error(c_bytes(arg), arg_name@),
            ),
        },
{
    match arg {
        None => {
            let mut m = owned(arg_name);
            m.append(" must not be null");
            set_last_error(last_error, m.as_str());
            Err(FeagiStatus::NullPointer)
        },
        Some(bytes) => match utf8_str(bytes) {
            Some(s) => Ok(owned(s)),
            None => {
                let mut m = owned(arg_name);
                m.append(" must be valid UTF-8");
                set_last_error(last_error, m.as_str());
                Err(FeagiStatus::InvalidUtf8)
            },
        },
    }
}

/// Rejects an absent argument named `arg_name`.
pub fn reject_null(last_error: &mut LastError, arg_name: &str) -> (status: FeagiStatus)
    ensures
        status == FeagiStatus::NullPointer,
        records(*final(last_error), null_message(arg_name@)),
{
    let mut m = owned(arg_name);
    m.append(" must not be null");
    set_last_error(last_error, m.as_str());
    FeagiStatus::NullPointer
}

} // verus!
