//! How a line of a report looks on the terminal.

use colored::Colorize;
use vstd::prelude::*;
use vstd::string::*;
use crate::commands::{banner, help_banner, help_header};
use crate::text::text_eq;

verus! {

/// The sequence that switches a terminal to bold yellow.
pub open spec fn bold_yellow() -> Seq<char> {
    "\x1B[1;33m"@
}

/// The sequence that switches a terminal back to its plain style.
pub open spec fn reset() -> Seq<char> {
    "\x1B[0m"@
}

/// `text` holds no escape character.
pub open spec fn escape_free(text: Seq<char>) -> bool {
    forall|i: int| 0 <= i < text.len() ==> text[i] != '\x1B'
}

/// `shown` is `text` as a terminal is to show it in bold yellow: the bare
/// text where colours are off, the text between the two sequences where they
/// are on, and the text before the second sequence alone where they are
/// switched off while the text is being formatted.
pub open spec fn highlighted(text: Seq<char>, shown: Seq<char>) -> bool {
    ||| shown == text
    ||| shown == bold_yellow() + text + reset()
    ||| shown == text + reset()
}

/// `text` as the terminal is to show it, in bold yellow.
///
/// This calls `Colorize::yellow` and `Colorize::bold` of the `colored` crate
/// and formats what they give. Whether colours are on depends on the
/// variables of the process, on whether its output goes to a terminal and on
/// the crate's override, so the contract names the forms that the result can
/// have and not which of them comes. A text with an escape character in it
/// may come back changed in between, and nothing is claimed of it.
#[verifier::external_body]
fn highlight(text: &str) -> (shown: String)
    ensures
        escape_free(text@) ==> highlighted(text@, shown@),
{
    text.yellow().bold().to_string()
}

/// The line as it is printed. The head of the help text has its title
/// highlighted; every other line is printed as it is.
pub fn styled(line: &str) -> (shown: String)
    ensures
        line@ != help_header() ==> shown@ == line@,
        line@ == help_header() ==> {
            ||| shown@ == banner("HELP"@)
            ||| shown@ == banner(bold_yellow() + "HELP"@ + reset())
            ||| shown@ == banner("HELP"@ + reset())
        },
{
    let plain = help_banner("HELP");
    if text_eq(line, plain.as_str()) {
        proof {
            reveal_strlit("HELP");
            assert(escape_free("HELP"@));
        }
        let title = highlight("HELP");
        help_banner(title.as_str())
    } else {
        String::from_str(line)
    }
}

} // verus!
