//! Text shaping for the narrow details pane: descriptions broken into
//! lines of a bounded width, and lines joined back with CRLF separators.

use vstd::prelude::*;

verus! {

use crate::package::{Package, spec_short_description, spec_display_name, spec_id};
use vstd::string::StringExecFns;

/// The lines that wrapping `text` to `width` display columns produces.
pub uninterp spec fn wrapped_lines(text: Seq<char>, width: int) -> Seq<Seq<char>>;

/// Relies on textwrap::wrap: breaks text into lines at most `width` columns
/// wide, splitting at whitespace; the result depends on the arguments alone.
#[verifier::external_body]
fn wrap_text(text: &str, width: usize) -> (r: Vec<String>)
    ensures
        r.deep_view() == wrapped_lines(text@, width as int),
{
    textwrap::wrap(text, width).into_iter().map(|line| line.into_owned()).collect()
}

/// A package's short description broken into lines for a pane of the given
/// width.
pub fn wrapped_description(p: Package, width: usize) -> (r: Vec<String>)
    ensures
        r.deep_view() == wrapped_lines(spec_short_description(p), width as int),
{
    wrap_text(p.short_description(), width)
}

/// The note shown for a package provided by a parent, broken into lines for
/// a pane of the given width.
pub fn wrapped_parent_note(parent: Package, width: usize) -> (r: Vec<String>)
    ensures
        r.deep_view() == wrapped_lines(
            "Installed from package '"@ + spec_display_name(parent) + "'"@,
            width as int,
        ),
{
    let mut note = String::from_str("Installed from package '");
    note.append(parent.display_name());
    note.append("'");
    wrap_text(note.as_str(), width)
}

/// The first `i` of `lines`, joined with CRLF separators.
pub open spec fn spec_joined_crlf_upto(lines: Seq<Seq<char>>, i: int) -> Seq<char>
    decreases i,
{
    if i <= 0 {
        Seq::empty()
    } else if i == 1 {
        lines[0]
    } else {
        spec_joined_crlf_upto(lines, i - 1) + "\r\n"@ + lines[i - 1]
    }
}

/// All of `lines`, joined with CRLF separators.
pub open spec fn spec_joined_crlf(lines: Seq<Seq<char>>) -> Seq<char> {
    spec_joined_crlf_upto(lines, lines.len() as int)
}

/// Join `lines` with CRLF separators.
pub fn join_crlf(lines: &Vec<String>) -> (r: String)
    ensures
        r@ == spec_joined_crlf(lines.deep_view()),
{
    let n: usize = lines.len();
    let mut out = String::new();
    let mut i: usize = 0;
    while i < n
        invariant
            n == lines@.len(),
            out@ == spec_joined_crlf_upto(lines.deep_view(), i as int),
            i <= n,
        decreases n - i,
    {
        if i > 0 {
            out.append("\r\n");
        }
        out.append(lines[i].as_str());
        proof {
            assert(lines.deep_view()[i as int] == lines@[i as int]@);
            assert(out@ =~= spec_joined_crlf_upto(lines.deep_view(), i as int + 1));
        }
        i = i + 1;
    }
    proof {
        assert(lines.deep_view().len() == lines@.len());
    }
    out
}

/// A display name padded with trailing spaces up to `width` characters, so
/// the selection rows of the package list stay wide.
pub fn padded_display_name(p: Package, width: usize) -> (r: String)
    ensures
        spec_display_name(p).len() >= width ==> r@ == spec_display_name(p),
        spec_display_name(p).len() < width ==> r@.len() == width && r@.subrange(
            0,
            spec_display_name(p).len() as int,
        ) == spec_display_name(p) && (forall|i: int|
            spec_display_name(p).len() <= i < width ==> r@[i] == ' '),
{
    let name = p.display_name();
    let len: usize = name.unicode_len();
    let mut out = String::from_str(name);
    if len >= width {
        return out;
    }
    let mut i: usize = len;
    while i < width
        invariant
            out@.len() == i,
            len == spec_display_name(p).len(),
            len <= i <= width,
            out@.subrange(0, len as int) == spec_display_name(p),
            forall|j: int| len <= j < i ==> out@[j] == ' ',
        decreases width - i,
    {
        out.append(" ");
        proof {
            reveal_strlit(" ");
            assert(out@.subrange(0, len as int) =~= spec_display_name(p));
        }
        i = i + 1;
    }
    out
}

} // verus!
