//! What every part of the command line offers: QEMU arguments, and lines
//! that describe the setup to the user.

use vstd::prelude::*;
use crate::text::views;

verus! {

/// One line of the description of a virtual machine, e.g. `CPU`:
/// `1 socket (Ryzen 5 5600), 2 cores, 4 threads`.
#[derive(Debug, Clone, PartialEq)]
pub struct ArgDisplay {
    pub name: String,
    pub value: String,
}

impl ArgDisplay {
    /// The name and the value.
    pub open spec fn view(&self) -> (Seq<char>, Seq<char>) {
        (self.name@, self.value@)
    }

    /// A line with a fixed name.
    pub fn new(name: &str, value: String) -> (r: ArgDisplay)
        ensures
            r.view() == (name@, value@),
    {
        ArgDisplay { name: String::from_str(name), value }
    }
}

/// The views of a list of description lines.
pub open spec fn lines(v: Seq<ArgDisplay>) -> Seq<(Seq<char>, Seq<char>)> {
    v.map_values(|d: ArgDisplay| d.view())
}

/// Appends a description line.
pub fn push_line(v: &mut Vec<ArgDisplay>, d: ArgDisplay)
    ensures
        lines(final(v)@) == lines(old(v)@).push(d.view()),
{
    let ghost dv = d.view();
    v.push(d);
    assert(lines(v@) =~= lines(old(v)@).push(dv));
}

/// Appends description lines.
pub fn extend_lines(v: &mut Vec<ArgDisplay>, w: Vec<ArgDisplay>)
    ensures
        lines(final(v)@) == lines(old(v)@) + lines(w@),
{
    let mut i: usize = 0;
    while i < w.len()
        invariant
            i <= w@.len(),
            lines(v@) == lines(old(v)@) + lines(w@).subrange(0, i as int),
        decreases w.len() - i,
    {
        let d = ArgDisplay { name: w[i].name.clone(), value: w[i].value.clone() };
        let ghost before = lines(v@);
        v.push(d);
        proof {
            assert(lines(v@) =~= before.push(w@[i as int].view()));
            assert(lines(w@).subrange(0, i + 1) =~= lines(w@).subrange(0, i as int).push(w@[i as int].view()));
        }
        i = i + 1;
    }
    assert(lines(w@).subrange(0, w@.len() as int) =~= lines(w@));
}

/// `s` when `b` holds, for plurals.
pub fn plural_if(b: bool) -> (r: &'static str)
    ensures
        r@ == (if b { "s"@ } else { ""@ }),
{
    if b {
        "s"
    } else {
        ""
    }
}

/// A part of the QEMU command line, and its description.
pub trait EmulatorArgs {
    /// The description lines.
    spec fn spec_display(&self) -> Seq<(Seq<char>, Seq<char>)>;

    /// The QEMU arguments.
    spec fn spec_qemu_args(&self) -> Seq<Seq<char>>;

    /// The description lines.
    fn display(&self) -> (r: Vec<ArgDisplay>)
        ensures
            lines(r@) == self.spec_display();

    /// The QEMU arguments.
    fn qemu_args(&self) -> (r: Vec<String>)
        ensures
            views(r@) == self.spec_qemu_args();
}

} // verus!
