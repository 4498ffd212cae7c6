//! Fixed text of the client (diagnostics, usage guidance, version) and the
//! small string comparisons the session logic needs.

use vstd::prelude::*;

verus! {

/// True exactly when the two string slices hold the same characters.
pub fn str_eq(a: &str, b: &str) -> (r: bool)
    ensures
        r == (a@ == b@),
{
    let x: String = a.to_owned();
    let y: String = b.to_owned();
    x == y
}

/// Diagnostic printed when the display connection cannot be opened.
pub open spec fn connect_error_text() -> Seq<char> {
    "ERROR: Cannot connect to wayland display."@
}

/// Diagnostic printed when a blocking roundtrip fails mid-dispatch.
pub open spec fn dispatch_error_text() -> Seq<char> {
    "ERROR: wayland dispatch failed."@
}

/// Diagnostic printed when the control interface is absent or has the wrong
/// advertised version.
pub open spec fn compositor_error_text() -> Seq<char> {
    "ERROR: Compositor doesn't implement NextControlV1."@
}

pub fn connect_error_line() -> (r: String)
    ensures
        r@ == connect_error_text(),
{
    "ERROR: Cannot connect to wayland display.".to_owned()
}

pub fn dispatch_error_line() -> (r: String)
    ensures
        r@ == dispatch_error_text(),
{
    "ERROR: wayland dispatch failed.".to_owned()
}

pub fn compositor_error_line() -> (r: String)
    ensures
        r@ == compositor_error_text(),
{
    "ERROR: Compositor doesn't implement NextControlV1.".to_owned()
}

/// Prefix put before a remote-reported failure message on the error stream.
pub open spec fn error_prefix() -> Seq<char> {
    "ERROR: "@
}

/// The two remote failure messages that additionally trigger usage guidance.
pub open spec fn is_usage_sentinel(m: Seq<char>) -> bool {
    m == "Unknown command\n"@ || m == "No command provided\n"@
}

/// True exactly when `m` is one of the two sentinel failure messages.
pub fn usage_sentinel(m: &String) -> (r: bool)
    ensures
        r == is_usage_sentinel(m@),
{
    let unknown = str_eq(m.as_str(), "Unknown command\n");
    let missing = str_eq(m.as_str(), "No command provided\n");
    unknown || missing
}

/// The usage guidance, line by line.
pub open spec fn usage_text() -> Seq<Seq<char>> {
    seq![
        "Usage: nextctl <command>"@,
        "  -h, --help      Print this help message and exit."@,
        ""@,
        "  -v, --version   Print the version number and exit."@,
        ""@,
        "Complete documentation for recognized commands can be found in"@,
        "the nextctl(1) man page."@,
    ]
}

/// Builds the usage guidance as printable lines.
pub fn usage_lines() -> (r: Vec<String>)
    ensures
        r@.len() == usage_text().len(),
        forall|i: int| 0 <= i < r@.len() ==> #[trigger] r@[i]@ == usage_text()[i],
{
    let mut lines: Vec<String> = Vec::new();
    lines.push("Usage: nextctl <command>".to_owned());
    lines.push("  -h, --help      Print this help message and exit.".to_owned());
    lines.push("".to_owned());
    lines.push("  -v, --version   Print the version number and exit.".to_owned());
    lines.push("".to_owned());
    lines.push("Complete documentation for recognized commands can be found in".to_owned());
    lines.push("the nextctl(1) man page.".to_owned());
    lines
}

/// The version string reported for `-v` / `--version`.
pub open spec fn version_text() -> Seq<char> {
    "0.1.0"@
}

pub fn version_line() -> (r: String)
    ensures
        r@ == version_text(),
{
    "0.1.0".to_owned()
}

} // verus!
