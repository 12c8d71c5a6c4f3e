use vstd::prelude::*;

verus! {

/// What is needed to open a font: the file it lives in and the point size.
#[derive(PartialEq, Eq, Hash)]
pub struct FontDetails {
    pub path: String,
    pub size: u16,
}

/// A copy of borrowed details, so that they can be kept.
impl<'a> From<&'a FontDetails> for FontDetails {
    fn from(details: &'a FontDetails) -> (r: FontDetails) {
        FontDetails { path: details.path.clone(), size: details.size }
    }
}

impl<'a> vstd::std_specs::convert::FromSpecImpl<&'a FontDetails> for FontDetails {
    open spec fn obeys_from_spec() -> bool {
        true
    }

    open spec fn from_spec(details: &'a FontDetails) -> FontDetails {
        FontDetails { path: details.path, size: details.size }
    }
}

} // verus!
