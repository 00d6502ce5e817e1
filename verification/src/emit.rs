use crate::text::{decimal, push_decimal};
use vstd::prelude::*;
use vstd::string::*;

verus! {

/// What every section name of this collector is prefixed with in a header.
pub const PREFIX: &'static str = "mssql_";

pub const HEADER_OPEN: &'static str = "<<<";

pub const SEPARATOR_OPEN: &'static str = ":sep(";

pub const HEADER_CLOSE: &'static str = ")>>>\n";

/// The header line of a section: the name between `<<<mssql_` and
/// `:sep(N)>>>` with a line feed, `N` being the separator's code point in
/// base ten.
pub open spec fn header_text(name: Seq<char>, separator: char) -> Seq<char> {
    HEADER_OPEN@ + PREFIX@ + name + SEPARATOR_OPEN@ + decimal(separator as nat) + HEADER_CLOSE@
}

/// Renders the header line that announces a section and its separator.
pub fn header(name: &str, separator: char) -> (line: String)
    ensures
        line@ == header_text(name@, separator),
{
    let mut line = String::from_str(HEADER_OPEN);
    line.append(PREFIX);
    line.append(name);
    line.append(SEPARATOR_OPEN);
    push_decimal(&mut line, separator as u64);
    line.append(HEADER_CLOSE);
    line
}

} // verus!
