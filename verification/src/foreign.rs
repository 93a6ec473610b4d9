use vstd::prelude::*;

verus! {

#[verifier::external_type_specification]
#[verifier::external_body]
pub struct ExYuvMatrixCoefficients(yuv::color::MatrixCoefficients);

#[verifier::external_type_specification]
#[verifier::external_body]
pub struct ExYuvDepth(yuv::color::Depth);

} // verus!
