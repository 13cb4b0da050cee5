//! Decoding the downloaded bytes, and where the image is saved.
use vstd::prelude::*;

use crate::args::Arguments;
use crate::config::Config;
use crate::Failure;

verus! {

#[verifier::external_type_specification]
#[verifier::external_body]
pub struct ExDynamicImage(image::DynamicImage);

#[verifier::external_type_specification]
#[verifier::external_body]
pub struct ExImageError(image::ImageError);

/// Whether the image crate, guessing the format from the leading bytes by
/// its built-in table, decodes a byte buffer in that format.
pub uninterp spec fn decodes(b: Seq<u8>) -> bool;

/// Relies on `image::guess_format`, which reads only the built-in table of
/// leading bytes, then `image::load_from_memory_with_format`, which with a
/// fixed format consults no hook that code elsewhere may register: success
/// depends on the bytes alone.
#[verifier::external_body]
fn load(b: &[u8]) -> (r: Result<image::DynamicImage, image::ImageError>)
    ensures
        r is Ok <==> decodes(b@),
{
    image::guess_format(b).and_then(|f| image::load_from_memory_with_format(b, f))
}

/// Decodes a downloaded image, its format detected from its contents.
pub fn decode(bytes: &[u8]) -> (r: Result<image::DynamicImage, Failure>)
    ensures
        r is Ok <==> decodes(bytes@),
        r matches Err(e) ==> e == Failure::Decode,
{
    match load(bytes) {
        Ok(img) => Ok(img),
        Err(_) => Err(Failure::Decode),
    }
}

/// Where the image of a run is saved: the configured directory text
/// followed directly by the resolved file name.
pub fn destination(arguments: &Arguments, config: &Config) -> (r: String)
    ensures
        r@ == config.default_dir@ + arguments.filename@,
{
    config.default_dir.clone().concat(arguments.filename.as_str())
}

} // verus!
