//! Commands that drive the Shorewall filtering tool, and how its answers are read.
use vstd::prelude::*;
use vstd::string::{StringExecFns, StringSliceAdditionalSpecFns};

verus! {

/// The text that `String::from_utf8_lossy` makes of `bytes`.
pub uninterp spec fn utf8_lossy(bytes: Seq<u8>) -> Seq<char>;

/// Relies on String::from_utf8_lossy: invalid sequences become U+FFFD, and
/// valid UTF-8 comes back as the text it encodes.
#[verifier::external_body]
fn lossy_text(bytes: &[u8]) -> (r: String)
    ensures
        r@ == utf8_lossy(bytes@),
        vstd::utf8::valid_utf8(bytes@) ==> r@ == vstd::utf8::decode_utf8(bytes@),
{
    String::from_utf8_lossy(bytes).into_owned()
}

/// What can go wrong while running a Shorewall command.
#[derive(Debug, PartialEq, Eq)]
pub enum Error {
    /// The command could not be started; the message says why.
    Io(String),
    /// The command ran and failed, with its exit code (none when a signal
    /// ended it) and what it wrote to its error stream.
    Failure(Option<i32>, String),
}

/// A Shorewall installation and the dynamic list that serves as allow-list.
pub struct Shorewall {
    /// Path to the `shorewall` binary.
    executable_path: String,
    /// Name of the dynamic list.
    list_name: String,
}

/// The shell script that exits with 0 when `ip` is a whole word of the list,
/// with 1 when it is not, and with 2 when the listing itself fails.
pub open spec fn check_script_of(exe: Seq<char>, list: Seq<char>, ip: Seq<char>) -> Seq<char> {
    "members=$("@ + exe + " show dynamic "@ + list + ") || exit 2; printf '%s\\n' \"$members\" | grep -F -w -q -- "@ + ip
}

/// A byte that may stand in the text of an IPv4 or IPv6 address.
pub open spec fn is_address_byte(b: u8) -> bool {
    (48 <= b <= 57) || (65 <= b <= 70) || (97 <= b <= 102) || b == 46 || b == 58
}

/// Non-empty text made of digits, hex digits, `.` and `:` only, which the
/// shell passes on as one plain word.
pub open spec fn is_address_text(bytes: Seq<u8>) -> bool {
    bytes.len() > 0 && forall|i: int| 0 <= i < bytes.len() ==> is_address_byte(#[trigger] bytes[i])
}

/// Whether `ip` looks like the text of an address (see `is_address_text`).
pub fn valid_address(ip: &str) -> (r: bool)
    ensures
        r == is_address_text(ip.spec_bytes()),
{
    let bytes = ip.as_bytes();
    if bytes.len() == 0 {
        return false;
    }
    let mut i: usize = 0;
    while i < bytes.len()
        invariant
            i <= bytes@.len(),
            bytes@ == ip.spec_bytes(),
            forall|j: int| 0 <= j < i ==> is_address_byte(#[trigger] bytes@[j]),
        decreases bytes@.len() - i,
    {
        let b = bytes[i];
        if !((48 <= b && b <= 57) || (65 <= b && b <= 70) || (97 <= b && b <= 102) || b == 46 || b
            == 58) {
            return false;
        }
        i = i + 1;
    }
    true
}

/// The shell pipeline that lists the members and deletes each of them.
pub open spec fn clear_script_of(exe: Seq<char>, list: Seq<char>) -> Seq<char> {
    exe + " show dynamic "@ + list + " | awk '/^ / {print $1}' | xargs -n1 "@ + exe + " delete"@
}

/// The result that a command's exit status and error output stand for.
pub open spec fn failure_of(r: Result<(), Error>, code: Option<i32>, stderr: Seq<u8>) -> bool {
    match r {
        Err(Error::Failure(c, text)) => c == code && text@ == utf8_lossy(stderr),
        _ => false,
    }
}

impl Shorewall {
    /// The binary's path.
    pub closed spec fn spec_executable(&self) -> Seq<char> {
        self.executable_path@
    }

    /// The dynamic list's name.
    pub closed spec fn spec_list(&self) -> Seq<char> {
        self.list_name@
    }

    /// Drives the binary at `executable_path` on the list `list_name`.
    pub fn new(executable_path: &str, list_name: &str) -> (r: Shorewall)
        ensures
            r.spec_executable() == executable_path@,
            r.spec_list() == list_name@,
    {
        Shorewall {
            executable_path: String::from_str(executable_path),
            list_name: String::from_str(list_name),
        }
    }

    /// The binary that `add_args` are for.
    pub fn executable(&self) -> (r: &str)
        ensures
            r@ == self.spec_executable(),
    {
        self.executable_path.as_str()
    }

    /// The arguments that add `ip` to the list: `add <list> <ip>`.
    pub fn add_args(&self, ip: &str) -> (r: Vec<String>)
        requires
            is_address_text(ip.spec_bytes()),
        ensures
            r@.len() == 3,
            r@[0]@ == "add"@,
            r@[1]@ == self.spec_list(),
            r@[2]@ == ip@,
    {
        let mut r: Vec<String> = Vec::new();
        r.push(String::from_str("add"));
        r.push(self.list_name.clone());
        r.push(String::from_str(ip));
        r
    }

    /// The shell pipeline that succeeds when `ip` is on the list.
    pub fn check_script(&self, ip: &str) -> (r: String)
        requires
            is_address_text(ip.spec_bytes()),
        ensures
            r@ == check_script_of(self.spec_executable(), self.spec_list(), ip@),
    {
        let mut s = String::from_str("members=$(");
        s.append(self.executable_path.as_str());
        s.append(" show dynamic ");
        s.append(self.list_name.as_str());
        s.append(") || exit 2; printf '%s\\n' \"$members\" | grep -F -w -q -- ");
        s.append(ip);
        s
    }

    /// The shell pipeline that empties the list.
    pub fn clear_script(&self) -> (r: String)
        ensures
            r@ == clear_script_of(self.spec_executable(), self.spec_list()),
    {
        let mut s = self.executable_path.clone();
        s.append(" show dynamic ");
        s.append(self.list_name.as_str());
        s.append(" | awk '/^ / {print $1}' | xargs -n1 ");
        s.append(self.executable_path.as_str());
        s.append(" delete");
        s
    }
}

/// Reads the outcome of a command that changes the list: success when it
/// exited with status zero, otherwise a failure with its code and error text.
pub fn output_to_result(success: bool, code: Option<i32>, stderr: &[u8]) -> (r: Result<(), Error>)
    ensures
        success ==> r is Ok,
        !success ==> failure_of(r, code, stderr@),
{
    if success {
        Ok(())
    } else {
        Err(Error::Failure(code, lossy_text(stderr)))
    }
}

/// Reads the outcome of the membership script: 0 when the address was found,
/// 1 when it was not; any other outcome (the listing failed, the filter
/// failed, no exit code) is a failure.
pub fn check_outcome(code: Option<i32>, stderr: &[u8]) -> (r: Result<bool, Error>)
    ensures
        code == Some(0i32) ==> r == Ok::<bool, Error>(true),
        code == Some(1i32) ==> r == Ok::<bool, Error>(false),
        code != Some(0i32) && code != Some(1i32) ==> match r {
            Err(Error::Failure(c, text)) => c == code && text@ == utf8_lossy(stderr@),
            _ => false,
        },
{
    match code {
        Some(0i32) => Ok(true),
        Some(1i32) => Ok(false),
        _ => Err(Error::Failure(code, lossy_text(stderr))),
    }
}

} // verus!
