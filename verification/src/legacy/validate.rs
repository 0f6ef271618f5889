//! Checks of settings against what QEMU supports.

use vstd::prelude::*;
use crate::text::str_eq;

verus! {

/// The keyboard layouts that QEMU knows.
pub open spec fn spec_keyboard_layouts() -> Seq<Seq<char>> {
    seq!["ar"@, "de-ch"@, "es"@, "fo"@, "fr-ca"@, "hu"@, "ja"@, "mk"@, "no"@, "pt-br"@, "sv"@, "da"@, "en-gb"@,
        "et"@, "fr"@, "fr-ch"@, "is"@, "lt"@, "nl"@, "pl"@, "ru"@, "th"@, "de"@, "en-us"@, "fi"@, "fr-be"@, "hr"@,
        "it"@, "lv"@, "nl-be"@, "pt"@, "sl"@, "tr"@]
}

/// Whether QEMU knows a keyboard layout.
pub open spec fn spec_is_keyboard_layout(l: Seq<char>) -> bool {
    spec_keyboard_layouts().contains(l)
}

fn keyboard_layouts() -> (r: Vec<&'static str>)
    ensures
        crate::text::str_views(r@) == spec_keyboard_layouts(),
{
    let v: Vec<&'static str> = vec!["ar", "de-ch", "es", "fo", "fr-ca", "hu", "ja", "mk", "no", "pt-br", "sv", "da", "en-gb",
        "et", "fr", "fr-ch", "is", "lt", "nl", "pl", "ru", "th", "de", "en-us", "fi", "fr-be", "hr", "it", "lv",
        "nl-be", "pt", "sl", "tr"];
    assert(crate::text::str_views(v@) =~= spec_keyboard_layouts());
    v
}

/// Accepts a keyboard layout that QEMU knows, and refuses others.
pub fn validate_keyboard_layout(layout: String) -> (r: Result<String, String>)
    ensures
        spec_is_keyboard_layout(layout@) ==> r == Ok::<String, String>(layout),
        !spec_is_keyboard_layout(layout@)
            ==> (r matches Err(m) && m@ == "Keyboard layout "@ + layout@ + " is not supported by QEMU."@),
{
    let layouts = keyboard_layouts();
    let ghost names = crate::text::str_views(layouts@);
    let mut i: usize = 0;
    while i < layouts.len()
        invariant
            i <= layouts@.len(),
            names == crate::text::str_views(layouts@),
            names == spec_keyboard_layouts(),
            forall|j: int| 0 <= j < i ==> names[j] != layout@,
        decreases layouts.len() - i,
    {
        if str_eq(layouts[i], layout.as_str()) {
            assert(names[i as int] == layout@);
            return Ok(layout);
        }
        i = i + 1;
    }
    let mut m = String::from_str("Keyboard layout ");
    m.append(layout.as_str());
    m.append(" is not supported by QEMU.");
    Err(m)
}

} // verus!
