//! The `is_svg` crate is a library for telling the two forms of a [SVG]
//! image apart: the SVG string (`.svg`) and the [gzip-compressed] SVG data
//! (`.svgz`).
//!
//! Whether a data is a valid SVG image at all is for a SVG reader to say.
//! This crate calls none. It takes the answer of the reader together with
//! the data, and decides the form by the gzip magic number at the head of
//! the data: what the two tests return is [`svg_string`] and [`svgz`], and
//! how their answers go together is proved in [`laws`].
//!
//! [SVG]: https://www.w3.org/Graphics/SVG/
//! [gzip-compressed]: https://datatracker.ietf.org/doc/html/rfc1952

use vstd::prelude::*;

pub mod gzip;
pub mod laws;

use crate::gzip::{has_gzip_magic, starts_with_gzip_magic};

verus! {

/// A data is a SVG string (`.svg`): it is a valid SVG data, and it does not
/// begin with the gzip magic number.
///
/// `valid` says whether the data is a valid SVG data.
pub open spec fn svg_string(valid: bool, data: Seq<u8>) -> bool {
    valid && !has_gzip_magic(data)
}

/// A data is a gzip-compressed SVG data (`.svgz`): it is a valid SVG data,
/// and it begins with the gzip magic number.
///
/// `valid` says whether the data is a valid SVG data.
pub open spec fn svgz(valid: bool, data: Seq<u8>) -> bool {
    valid && has_gzip_magic(data)
}

/// Returns `true` if `data` is a valid non [gzip-compressed] [SVG] data
/// (`.svg`), and `false` otherwise.
///
/// `valid` is the answer of the SVG reader for `data`: whether it is a valid
/// SVG data, gzip-compressed or not. This function returns `false` if `data`
/// is a valid SVG data, but gzip-compressed (`.svgz`). A data of fewer than
/// two bytes cannot begin with the magic number, so that the answer for it
/// is that of the reader.
///
/// [gzip-compressed]: https://datatracker.ietf.org/doc/html/rfc1952
/// [SVG]: https://www.w3.org/Graphics/SVG/
pub fn is_svg_string(valid: bool, data: &[u8]) -> (plain: bool)
    ensures
        plain == svg_string(valid, data@),
        data@.len() < 2 ==> plain == valid,
{
    valid && !starts_with_gzip_magic(data)
}

/// Returns `true` if `data` is a valid [gzip-compressed] [SVG] data
/// (`.svgz`), and `false` otherwise.
///
/// `valid` is the answer of the SVG reader for `data`: whether it is a valid
/// SVG data, gzip-compressed or not. This function returns `false` if `data`
/// is a valid SVG data, but non gzip-compressed (`.svg`). A data of fewer
/// than two bytes cannot begin with the magic number, so this function
/// returns `false` for it.
///
/// [gzip-compressed]: https://datatracker.ietf.org/doc/html/rfc1952
/// [SVG]: https://www.w3.org/Graphics/SVG/
pub fn is_svgz(valid: bool, data: &[u8]) -> (gzipped: bool)
    ensures
        gzipped == svgz(valid, data@),
        data@.len() < 2 ==> !gzipped,
{
    valid && starts_with_gzip_magic(data)
}

} // verus!
