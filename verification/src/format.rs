//! The common shape of everything that is decoded field by field: a register,
//! an instruction word or a word of the translation scheme.
//!
//! A report is a title line, an underline of the same length, and one line
//! for each field, in the order in which the layout declares them.
use crate::bitfield::{BitField, BitFieldType};
use crate::text::{push_repeated, repeated};
use vstd::prelude::*;

verus! {

/// The head of a report: the title, then as many dashes as the title is long.
pub open spec fn heading(title: Seq<char>) -> Seq<char> {
    title + "\n"@ + repeated('-', title.len()) + "\n"@
}

/// The line of a report for the field `name` that is shown as `shown`.
pub open spec fn line(name: Seq<char>, shown: Seq<char>) -> Seq<char> {
    name + ": "@ + shown + "\n"@
}

/// Starts a report with the [`heading`] for `title`.
pub fn start_report(title: &str) -> (text: String)
    ensures
        text@ == heading(title@),
{
    let mut text = String::from_str(title);
    text.append("\n");
    push_repeated(&mut text, '-', title.unicode_len());
    text.append("\n");
    text
}

/// Appends the [`line`] for a field `name` that is shown as `shown`.
pub fn push_text_line(text: &mut String, name: &str, shown: &str)
    ensures
        final(text)@ == old(text)@ + line(name@, shown@),
{
    text.append(name);
    text.append(": ");
    text.append(shown);
    text.append("\n");
    assert(text@ =~= old(text)@ + line(name@, shown@));
}

/// Appends the [`line`] for `field` under the name `name`.
pub fn push_line<T: BitFieldType, const S: usize, const E: usize>(
    text: &mut String,
    name: &str,
    field: &BitField<T, S, E>,
)
    ensures
        final(text)@ == old(text)@ + line(name@, field.text()),
{
    let shown = field.format();
    push_text_line(text, name, shown.as_str());
}

/// A layout of named bit fields over a 64-bit word.
pub trait Csr: Sized {
    /// The name of the layout, in lower case.
    spec fn title() -> Seq<char>;

    /// The fields that the layout cuts out of `value`.
    spec fn decoded(value: u64) -> Self;

    /// The report on these fields.
    spec fn report(&self) -> Seq<char>;

    /// Cuts the fields out of the raw word `value`.
    fn new(value: u64) -> (csr: Self)
        ensures
            csr == Self::decoded(value),
    ;

    /// The name of the layout.
    fn name() -> (name: String)
        ensures
            name@ == Self::title(),
    ;

    /// Writes the report: the heading, then the fields in the order of their
    /// declaration.
    fn render(&self) -> (text: String)
        ensures
            text@ == self.report(),
    ;
}

/// Rendering is repeatable: two texts that [`Csr::render`] may hand out for
/// one register are the same text.
pub proof fn lemma_render_is_repeatable<C: Csr>(csr: C, first: Seq<char>, second: Seq<char>)
    requires
        first == csr.report(),
        second == csr.report(),
    ensures
        first == second,
{
}

} // verus!
