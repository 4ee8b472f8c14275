//! Reading section contents out of an object file, through the `object` crate.

use object::{Object, ObjectSection};
use vstd::prelude::*;

verus! {

/// The error that the `object` crate reports for a file it cannot read.
#[verifier::external_type_specification]
#[verifier::external_body]
pub struct ExObjectError(object::Error);

/// What reading the section named `name` out of the object file `file`
/// yields: `None` where the file's headers or that section's contents cannot
/// be read, `Some(None)` where the lookup by name finds no section, else the
/// bytes of the first section found.
pub uninterp spec fn object_section(file: Seq<u8>, name: Seq<char>) -> Option<Option<Seq<u8>>>;

/// Relies on `object::File::parse` to read the file's headers, on
/// `Object::section_by_name` to find the first section called `name`, and on
/// `ObjectSection::data` for its bytes. Each depends on the bytes of the file
/// alone.
#[verifier::external_body]
pub(crate) fn section_data(file: &[u8], name: &str) -> (r: Result<Option<Vec<u8>>, object::Error>)
    ensures
        match r {
            Ok(Some(bytes)) => object_section(file@, name@) == Some(Some(bytes@)),
            Ok(None) => object_section(file@, name@) == Some(None::<Seq<u8>>),
            Err(_) => object_section(file@, name@) == None::<Option<Seq<u8>>>,
        },
{
    let parsed = object::File::parse(file)?;
    match parsed.section_by_name(name) {
        Some(section) => Ok(Some(section.data()?.to_vec())),
        None => Ok(None),
    }
}

} // verus!
