//! How the answers of the two tests go together, whatever the SVG reader
//! says of a data.

use vstd::prelude::*;

use crate::gzip::lemma_has_gzip_magic;
use crate::{svg_string, svgz};

verus! {

/// No data is both a SVG string and a gzip-compressed SVG data.
pub proof fn lemma_svg_string_excludes_svgz(valid: bool, data: Seq<u8>)
    ensures
        !(svg_string(valid, data) && svgz(valid, data)),
{
}

/// A data is a valid SVG data exactly when it is a SVG string or a
/// gzip-compressed SVG data.
pub proof fn lemma_svg_is_string_or_svgz(valid: bool, data: Seq<u8>)
    ensures
        valid == (svg_string(valid, data) || svgz(valid, data)),
{
}

/// A valid SVG data has exactly one of the two forms, and a data that is not
/// valid has neither.
pub proof fn lemma_svg_has_one_form(valid: bool, data: Seq<u8>)
    ensures
        valid ==> svg_string(valid, data) != svgz(valid, data),
        !valid ==> !svg_string(valid, data) && !svgz(valid, data),
{
}

/// A data of fewer than two bytes is not a gzip-compressed SVG data: it
/// cannot begin with the two bytes of the magic number. It is a SVG string
/// exactly when it is valid.
pub proof fn lemma_short_data_is_not_svgz(valid: bool, data: Seq<u8>)
    requires
        data.len() < 2,
    ensures
        !svgz(valid, data),
        svg_string(valid, data) == valid,
{
    lemma_has_gzip_magic(data);
}

/// The two answers depend on the answer of the SVG reader and on the bytes of
/// the data alone: two data that hold the same bytes and of which the reader
/// says the same get the same answers, so that asking again about a data
/// never changes an answer.
pub proof fn lemma_same_bytes_same_answers(valid: bool, first: Seq<u8>, second: Seq<u8>)
    requires
        first =~= second,
    ensures
        svg_string(valid, first) == svg_string(valid, second),
        svgz(valid, first) == svgz(valid, second),
{
}

} // verus!
