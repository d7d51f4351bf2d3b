//! The font for Japanese characters.

use vstd::prelude::*;
use vstd::string::*;

use crate::cursor::text_views;

verus! {

/// The name under which the font is installed.
pub const FONT_NAME: &'static str = "jp";

/// What to do about the font.
#[derive(Copy, Clone, Debug)]
pub enum FontStep {
    /// Try to read this file.
    Read(&'static str),
    /// Install the font that was read.
    Install,
    /// Do without: no file could be read.
    Skip,
}

/// The files that may hold the font, best first.
pub open spec fn font_files() -> Seq<Seq<char>> {
    seq![
        "C:\\Windows\\Fonts\\YuGothM.ttc"@,
        "C:\\Windows\\Fonts\\YuGothR.ttc"@,
        "C:\\Windows\\Fonts\\meiryo.ttc"@,
        "C:\\Windows\\Fonts\\msgothic.ttc"@,
    ]
}

/// Tells what to do after so many files were tried, of which the last could be read or not. The
/// first file that can be read is the one that is installed.
pub fn next_font(tried: usize, read: bool) -> (step: FontStep)
    ensures
        match step {
            FontStep::Install => read,
            FontStep::Read(path) => !read && tried < font_files().len() && path@
                == font_files()[tried as int],
            FontStep::Skip => !read && tried >= font_files().len(),
        },
{
    if read {
        return FontStep::Install;
    }
    match tried {
        0 => FontStep::Read("C:\\Windows\\Fonts\\YuGothM.ttc"),
        1 => FontStep::Read("C:\\Windows\\Fonts\\YuGothR.ttc"),
        2 => FontStep::Read("C:\\Windows\\Fonts\\meiryo.ttc"),
        3 => FontStep::Read("C:\\Windows\\Fonts\\msgothic.ttc"),
        _ => FontStep::Skip,
    }
}

/// Installs the font: it is the first choice for proportional text and the last resort for
/// monospaced text.
pub fn install_font(proportional: &mut Vec<String>, monospace: &mut Vec<String>)
    ensures
        text_views(final(proportional)@) == seq![FONT_NAME@] + text_views(old(proportional)@),
        text_views(final(monospace)@) == text_views(old(monospace)@).push(FONT_NAME@),
{
    let ghost first = text_views(proportional@);
    let ghost second = text_views(monospace@);
    proportional.insert(0, FONT_NAME.to_owned());
    monospace.push(FONT_NAME.to_owned());
    assert(text_views(proportional@) =~= seq![FONT_NAME@] + first);
    assert(text_views(monospace@) =~= second.push(FONT_NAME@));
}

} // verus!
