//! The scripts that query and restore which application has input focus.
use vstd::prelude::*;

verus! {

/// The characters with the Unicode `White_Space` property.
pub open spec fn is_white_space(c: char) -> bool {
    let u = c as u32;
    (0x9 <= u <= 0xd) || u == 0x20 || u == 0x85 || u == 0xa0 || u == 0x1680 || (0x2000 <= u
        <= 0x200a) || u == 0x2028 || u == 0x2029 || u == 0x202f || u == 0x205f || u == 0x3000
}

/// `s` without its leading white space.
pub open spec fn trim_start_of(s: Seq<char>) -> Seq<char>
    decreases s.len(),
{
    if s.len() > 0 && is_white_space(s[0]) {
        trim_start_of(s.drop_first())
    } else {
        s
    }
}

/// `s` without its trailing white space.
pub open spec fn trim_end_of(s: Seq<char>) -> Seq<char>
    decreases s.len(),
{
    if s.len() > 0 && is_white_space(s.last()) {
        trim_end_of(s.drop_last())
    } else {
        s
    }
}

/// `s` without leading and trailing white space.
pub open spec fn trimmed_of(s: Seq<char>) -> Seq<char> {
    trim_end_of(trim_start_of(s))
}

/// Relies on `str::trim`: leading and trailing characters with the Unicode
/// `White_Space` property are removed.
#[verifier::external_body]
fn trim(s: &str) -> (r: &str)
    ensures
        r@ == trimmed_of(s@),
{
    s.trim()
}

/// The script asking for the identifier of the frontmost application.
pub fn frontmost_script() -> (r: &'static str)
    ensures
        r@ == "tell application \"System Events\" to get bundle identifier of (first process whose frontmost is true)"@,
{
    "tell application \"System Events\" to get bundle identifier of (first process whose frontmost is true)"
}

/// The identifier reported by a successful frontmost query, if it named one.
pub fn frontmost_from_output(succeeded: bool, output: &str) -> (r: Option<String>)
    ensures
        !succeeded ==> r is None,
        succeeded && trimmed_of(output@).len() == 0 ==> r is None,
        succeeded && trimmed_of(output@).len() > 0 ==> (r matches Some(id) && id@ == trimmed_of(
            output@,
        )),
{
    if !succeeded {
        return None;
    }
    let id = trim(output);
    if id.unicode_len() == 0 {
        None
    } else {
        Some(id.to_string())
    }
}

/// The script that brings the application with identifier `id` to the front.
pub open spec fn activation_script_of(id: Seq<char>) -> Seq<char> {
    "tell application id \""@ + id + "\" to activate"@
}

/// The script that brings the application with identifier `id` to the front.
pub fn activation_script(id: &str) -> (r: String)
    ensures
        r@ == activation_script_of(id@),
{
    let mut s = "tell application id \"".to_string();
    s.append(id);
    s.append("\" to activate");
    s
}

} // verus!
