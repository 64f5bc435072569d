//! Case-by-case checks of the kite's edge-direction and edge-joining
//! identities, one small lemma per edge and grid orientation.

use crate::coord::qeq;
use crate::dart_grid::{
    len_rot_long_0, len_rot_long_1, len_rot_long_2, len_rot_long_3, len_rot_long_4,
    len_rot_long_5, len_rot_long_6, len_rot_long_7, len_rot_long_8, len_rot_long_9,
    len_rot_short_0, len_rot_short_1, len_rot_short_2, len_rot_short_3, len_rot_short_4,
    len_rot_short_5, len_rot_short_6, len_rot_short_7, len_rot_short_8, len_rot_short_9,
};
use crate::degrees::norm360;
use crate::kite::{kite_delta, kite_len, kite_point};
use crate::laws::{kite_dir_claim, kite_join_claim};
use crate::tile::{cos_t, len_value, qc, rot36, sin_t, EdgeLength};
use vstd::arithmetic::power2::lemma2_to64;
use vstd::prelude::*;

verus! {

// Exact rotated values of each template point and placement offset,
// for the ten grid orientations, shared by the case lemmas below.

#[verifier::spinoff_prover]
pub(crate) proof fn rot_kpt_0_0()
    ensures
        rot36(kite_point(0), 0).x == qc(-8, -8, 0, 0, 4),
        rot36(kite_point(0), 0).y == qc(0, 0, 0, 0, 4),
{
    lemma2_to64();
    assert(qc(-1, -1, 0, 0, 1).times(qc(1, 0, 0, 0, 0)) == qc(-8, -8, 0, 0, 4));
    assert(qc(0, 0, 0, 0, 0).times(qc(0, 0, 0, 0, 0)) == qc(0, 0, 0, 0, 3));
    assert(qc(-8, -8, 0, 0, 4).minus(qc(0, 0, 0, 0, 3)) == qc(-8, -8, 0, 0, 4));
    assert(qc(-1, -1, 0, 0, 1).times(qc(0, 0, 0, 0, 0)) == qc(0, 0, 0, 0, 4));
    assert(qc(0, 0, 0, 0, 0).times(qc(1, 0, 0, 0, 0)) == qc(0, 0, 0, 0, 3));
    assert(qc(0, 0, 0, 0, 4).plus(qc(0, 0, 0, 0, 3)) == qc(0, 0, 0, 0, 4));
    assert(kite_point(0).x == qc(-1, -1, 0, 0, 1) && kite_point(0).y == qc(0, 0, 0, 0, 0));
    assert(cos_t(0) == qc(1, 0, 0, 0, 0) && sin_t(0) == qc(0, 0, 0, 0, 0));
}

#[verifier::spinoff_prover]
pub(crate) proof fn rot_kpt_0_1()
    ensures
        rot36(kite_point(0), 1).x == qc(-48, -16, 0, 0, 6),
        rot36(kite_point(0), 1).y == qc(0, 0, -16, -16, 5),
{
    lemma2_to64();
    assert(qc(-1, -1, 0, 0, 1).times(qc(1, 1, 0, 0, 2)) == qc(-48, -16, 0, 0, 6));
    assert(qc(0, 0, 0, 0, 0).times(qc(0, 0, 1, 0, 0)) == qc(0, 0, 0, 0, 3));
    assert(qc(-48, -16, 0, 0, 6).minus(qc(0, 0, 0, 0, 3)) == qc(-48, -16, 0, 0, 6));
    assert(qc(-1, -1, 0, 0, 1).times(qc(0, 0, 1, 0, 0)) == qc(0, 0, -8, -8, 4));
    assert(qc(0, 0, 0, 0, 0).times(qc(1, 1, 0, 0, 2)) == qc(0, 0, 0, 0, 5));
    assert(qc(0, 0, -8, -8, 4).plus(qc(0, 0, 0, 0, 5)) == qc(0, 0, -16, -16, 5));
    assert(kite_point(0).x == qc(-1, -1, 0, 0, 1) && kite_point(0).y == qc(0, 0, 0, 0, 0));
    assert(cos_t(1) == qc(1, 1, 0, 0, 2) && sin_t(1) == qc(0, 0, 1, 0, 0));
}

#[verifier::spinoff_prover]
pub(crate) proof fn rot_kpt_0_2()
    ensures
        rot36(kite_point(0), 2).x == qc(-32, 0, 0, 0, 6),
        rot36(kite_point(0), 2).y == qc(0, 0, -48, -16, 5),
{
    lemma2_to64();
    assert(qc(-1, -1, 0, 0, 1).times(qc(-1, 1, 0, 0, 2)) == qc(-32, 0, 0, 0, 6));
    assert(qc(0, 0, 0, 0, 0).times(qc(0, 0, 1, 1, 1)) == qc(0, 0, 0, 0, 4));
    assert(qc(-32, 0, 0, 0, 6).minus(qc(0, 0, 0, 0, 4)) == qc(-32, 0, 0, 0, 6));
    assert(qc(-1, -1, 0, 0, 1).times(qc(0, 0, 1, 1, 1)) == qc(0, 0, -48, -16, 5));
    assert(qc(0, 0, 0, 0, 0).times(qc(-1, 1, 0, 0, 2)) == qc(0, 0, 0, 0, 5));
    assert(qc(0, 0, -48, -16, 5).plus(qc(0, 0, 0, 0, 5)) == qc(0, 0, -48, -16, 5));
    assert(kite_point(0).x == qc(-1, -1, 0, 0, 1) && kite_point(0).y == qc(0, 0, 0, 0, 0));
    assert(cos_t(2) == qc(-1, 1, 0, 0, 2) && sin_t(2) == qc(0, 0, 1, 1, 1));
}

#[verifier::spinoff_prover]
pub(crate) proof fn rot_kpt_0_3()
    ensures
        rot36(kite_point(0), 3).x == qc(32, 0, 0, 0, 6),
        rot36(kite_point(0), 3).y == qc(0, 0, -48, -16, 5),
{
    lemma2_to64();
    assert(qc(-1, -1, 0, 0, 1).times(qc(1, -1, 0, 0, 2)) == qc(32, 0, 0, 0, 6));
    assert(qc(0, 0, 0, 0, 0).times(qc(0, 0, 1, 1, 1)) == qc(0, 0, 0, 0, 4));
    assert(qc(32, 0, 0, 0, 6).minus(qc(0, 0, 0, 0, 4)) == qc(32, 0, 0, 0, 6));
    assert(qc(-1, -1, 0, 0, 1).times(qc(0, 0, 1, 1, 1)) == qc(0, 0, -48, -16, 5));
    assert(qc(0, 0, 0, 0, 0).times(qc(1, -1, 0, 0, 2)) == qc(0, 0, 0, 0, 5));
    assert(qc(0, 0, -48, -16, 5).plus(qc(0, 0, 0, 0, 5)) == qc(0, 0, -48, -16, 5));
    assert(kite_point(0).x == qc(-1, -1, 0, 0, 1) && kite_point(0).y == qc(0, 0, 0, 0, 0));
    assert(cos_t(3) == qc(1, -1, 0, 0, 2) && sin_t(3) == qc(0, 0, 1, 1, 1));
}

#[verifier::spinoff_prover]
pub(crate) proof fn rot_kpt_0_4()
    ensures
        rot36(kite_point(0), 4).x == qc(48, 16, 0, 0, 6),
        rot36(kite_point(0), 4).y == qc(0, 0, -16, -16, 5),
{
    lemma2_to64();
    assert(qc(-1, -1, 0, 0, 1).times(qc(-1, -1, 0, 0, 2)) == qc(48, 16, 0, 0, 6));
    assert(qc(0, 0, 0, 0, 0).times(qc(0, 0, 1, 0, 0)) == qc(0, 0, 0, 0, 3));
    assert(qc(48, 16, 0, 0, 6).minus(qc(0, 0, 0, 0, 3)) == qc(48, 16, 0, 0, 6));
    assert(qc(-1, -1, 0, 0, 1).times(qc(0, 0, 1, 0, 0)) == qc(0, 0, -8, -8, 4));
    assert(qc(0, 0, 0, 0, 0).times(qc(-1, -1, 0, 0, 2)) == qc(0, 0, 0, 0, 5));
    assert(qc(0, 0, -8, -8, 4).plus(qc(0, 0, 0, 0, 5)) == qc(0, 0, -16, -16, 5));
    assert(kite_point(0).x == qc(-1, -1, 0, 0, 1) && kite_point(0).y == qc(0, 0, 0, 0, 0));
    assert(cos_t(4) == qc(-1, -1, 0, 0, 2) && sin_t(4) == qc(0, 0, 1, 0, 0));
}

#[verifier::spinoff_prover]
pub(crate) proof fn rot_kpt_0_5()
    ensures
        rot36(kite_point(0), 5).x == qc(8, 8, 0, 0, 4),
        rot36(kite_point(0), 5).y == qc(0, 0, 0, 0, 4),
{
    lemma2_to64();
    assert(qc(-1, -1, 0, 0, 1).times(qc(-1, 0, 0, 0, 0)) == qc(8, 8, 0, 0, 4));
    assert(qc(0, 0, 0, 0, 0).times(qc(0, 0, 0, 0, 0)) == qc(0, 0, 0, 0, 3));
    assert(qc(8, 8, 0, 0, 4).minus(qc(0, 0, 0, 0, 3)) == qc(8, 8, 0, 0, 4));
    assert(qc(-1, -1, 0, 0, 1).times(qc(0, 0, 0, 0, 0)) == qc(0, 0, 0, 0, 4));
    assert(qc(0, 0, 0, 0, 0).times(qc(-1, 0, 0, 0, 0)) == qc(0, 0, 0, 0, 3));
    assert(qc(0, 0, 0, 0, 4).plus(qc(0, 0, 0, 0, 3)) == qc(0, 0, 0, 0, 4));
    assert(kite_point(0).x == qc(-1, -1, 0, 0, 1) && kite_point(0).y == qc(0, 0, 0, 0, 0));
    assert(cos_t(5) == qc(-1, 0, 0, 0, 0) && sin_t(5) == qc(0, 0, 0, 0, 0));
}

#[verifier::spinoff_prover]
pub(crate) proof fn rot_kpt_0_6()
    ensures
        rot36(kite_point(0), 6).x == qc(48, 16, 0, 0, 6),
        rot36(kite_point(0), 6).y == qc(0, 0, 16, 16, 5),
{
    lemma2_to64();
    assert(qc(-1, -1, 0, 0, 1).times(qc(-1, -1, 0, 0, 2)) == qc(48, 16, 0, 0, 6));
    assert(qc(0, 0, 0, 0, 0).times(qc(0, 0, -1, 0, 0)) == qc(0, 0, 0, 0, 3));
    assert(qc(48, 16, 0, 0, 6).minus(qc(0, 0, 0, 0, 3)) == qc(48, 16, 0, 0, 6));
    assert(qc(-1, -1, 0, 0, 1).times(qc(0, 0, -1, 0, 0)) == qc(0, 0, 8, 8, 4));
    assert(qc(0, 0, 0, 0, 0).times(qc(-1, -1, 0, 0, 2)) == qc(0, 0, 0, 0, 5));
    assert(qc(0, 0, 8, 8, 4).plus(qc(0, 0, 0, 0, 5)) == qc(0, 0, 16, 16, 5));
    assert(kite_point(0).x == qc(-1, -1, 0, 0, 1) && kite_point(0).y == qc(0, 0, 0, 0, 0));
    assert(cos_t(6) == qc(-1, -1, 0, 0, 2) && sin_t(6) == qc(0, 0, -1, 0, 0));
}

#[verifier::spinoff_prover]
pub(crate) proof fn rot_kpt_0_7()
    ensures
        rot36(kite_point(0), 7).x == qc(32, 0, 0, 0, 6),
        rot36(kite_point(0), 7).y == qc(0, 0, 48, 16, 5),
{
    lemma2_to64();
    assert(qc(-1, -1, 0, 0, 1).times(qc(1, -1, 0, 0, 2)) == qc(32, 0, 0, 0, 6));
    assert(qc(0, 0, 0, 0, 0).times(qc(0, 0, -1, -1, 1)) == qc(0, 0, 0, 0, 4));
    assert(qc(32, 0, 0, 0, 6).minus(qc(0, 0, 0, 0, 4)) == qc(32, 0, 0, 0, 6));
    assert(qc(-1, -1, 0, 0, 1).times(qc(0, 0, -1, -1, 1)) == qc(0, 0, 48, 16, 5));
    assert(qc(0, 0, 0, 0, 0).times(qc(1, -1, 0, 0, 2)) == qc(0, 0, 0, 0, 5));
    assert(qc(0, 0, 48, 16, 5).plus(qc(0, 0, 0, 0, 5)) == qc(0, 0, 48, 16, 5));
    assert(kite_point(0).x == qc(-1, -1, 0, 0, 1) && kite_point(0).y == qc(0, 0, 0, 0, 0));
    assert(cos_t(7) == qc(1, -1, 0, 0, 2) && sin_t(7) == qc(0, 0, -1, -1, 1));
}

#[verifier::spinoff_prover]
pub(crate) proof fn rot_kpt_0_8()
    ensures
        rot36(kite_point(0), 8).x == qc(-32, 0, 0, 0, 6),
        rot36(kite_point(0), 8).y == qc(0, 0, 48, 16, 5),
{
    lemma2_to64();
    assert(qc(-1, -1, 0, 0, 1).times(qc(-1, 1, 0, 0, 2)) == qc(-32, 0, 0, 0, 6));
    assert(qc(0, 0, 0, 0, 0).times(qc(0, 0, -1, -1, 1)) == qc(0, 0, 0, 0, 4));
    assert(qc(-32, 0, 0, 0, 6).minus(qc(0, 0, 0, 0, 4)) == qc(-32, 0, 0, 0, 6));
    assert(qc(-1, -1, 0, 0, 1).times(qc(0, 0, -1, -1, 1)) == qc(0, 0, 48, 16, 5));
    assert(qc(0, 0, 0, 0, 0).times(qc(-1, 1, 0, 0, 2)) == qc(0, 0, 0, 0, 5));
    assert(qc(0, 0, 48, 16, 5).plus(qc(0, 0, 0, 0, 5)) == qc(0, 0, 48, 16, 5));
    assert(kite_point(0).x == qc(-1, -1, 0, 0, 1) && kite_point(0).y == qc(0, 0, 0, 0, 0));
    assert(cos_t(8) == qc(-1, 1, 0, 0, 2) && sin_t(8) == qc(0, 0, -1, -1, 1));
}

#[verifier::spinoff_prover]
pub(crate) proof fn rot_kpt_0_9()
    ensures
        rot36(kite_point(0), 9).x == qc(-48, -16, 0, 0, 6),
        rot36(kite_point(0), 9).y == qc(0, 0, 16, 16, 5),
{
    lemma2_to64();
    assert(qc(-1, -1, 0, 0, 1).times(qc(1, 1, 0, 0, 2)) == qc(-48, -16, 0, 0, 6));
    assert(qc(0, 0, 0, 0, 0).times(qc(0, 0, -1, 0, 0)) == qc(0, 0, 0, 0, 3));
    assert(qc(-48, -16, 0, 0, 6).minus(qc(0, 0, 0, 0, 3)) == qc(-48, -16, 0, 0, 6));
    assert(qc(-1, -1, 0, 0, 1).times(qc(0, 0, -1, 0, 0)) == qc(0, 0, 8, 8, 4));
    assert(qc(0, 0, 0, 0, 0).times(qc(1, 1, 0, 0, 2)) == qc(0, 0, 0, 0, 5));
    assert(qc(0, 0, 8, 8, 4).plus(qc(0, 0, 0, 0, 5)) == qc(0, 0, 16, 16, 5));
    assert(kite_point(0).x == qc(-1, -1, 0, 0, 1) && kite_point(0).y == qc(0, 0, 0, 0, 0));
    assert(cos_t(9) == qc(1, 1, 0, 0, 2) && sin_t(9) == qc(0, 0, -1, 0, 0));
}

#[verifier::spinoff_prover]
pub(crate) proof fn rot_kpt_1_0()
    ensures
        rot36(kite_point(1), 0).x == qc(8, 0, 0, 0, 4),
        rot36(kite_point(1), 0).y == qc(0, 0, -24, -8, 4),
{
    lemma2_to64();
    assert(qc(1, 0, 0, 0, 1).times(qc(1, 0, 0, 0, 0)) == qc(8, 0, 0, 0, 4));
    assert(qc(0, 0, -3, -1, 1).times(qc(0, 0, 0, 0, 0)) == qc(0, 0, 0, 0, 4));
    assert(qc(8, 0, 0, 0, 4).minus(qc(0, 0, 0, 0, 4)) == qc(8, 0, 0, 0, 4));
    assert(qc(1, 0, 0, 0, 1).times(qc(0, 0, 0, 0, 0)) == qc(0, 0, 0, 0, 4));
    assert(qc(0, 0, -3, -1, 1).times(qc(1, 0, 0, 0, 0)) == qc(0, 0, -24, -8, 4));
    assert(qc(0, 0, 0, 0, 4).plus(qc(0, 0, -24, -8, 4)) == qc(0, 0, -24, -8, 4));
    assert(kite_point(1).x == qc(1, 0, 0, 0, 1) && kite_point(1).y == qc(0, 0, -3, -1, 1));
    assert(cos_t(0) == qc(1, 0, 0, 0, 0) && sin_t(0) == qc(0, 0, 0, 0, 0));
}

#[verifier::spinoff_prover]
pub(crate) proof fn rot_kpt_1_1()
    ensures
        rot36(kite_point(1), 1).x == qc(48, 16, 0, 0, 6),
        rot36(kite_point(1), 1).y == qc(0, 0, -32, -32, 6),
{
    lemma2_to64();
    assert(qc(1, 0, 0, 0, 1).times(qc(1, 1, 0, 0, 2)) == qc(8, 8, 0, 0, 6));
    assert(qc(0, 0, -3, -1, 1).times(qc(0, 0, 1, 0, 0)) == qc(-10, -2, 0, 0, 4));
    assert(qc(8, 8, 0, 0, 6).minus(qc(-10, -2, 0, 0, 4)) == qc(48, 16, 0, 0, 6));
    assert(qc(1, 0, 0, 0, 1).times(qc(0, 0, 1, 0, 0)) == qc(0, 0, 8, 0, 4));
    assert(qc(0, 0, -3, -1, 1).times(qc(1, 1, 0, 0, 2)) == qc(0, 0, -64, -32, 6));
    assert(qc(0, 0, 8, 0, 4).plus(qc(0, 0, -64, -32, 6)) == qc(0, 0, -32, -32, 6));
    assert(kite_point(1).x == qc(1, 0, 0, 0, 1) && kite_point(1).y == qc(0, 0, -3, -1, 1));
    assert(cos_t(1) == qc(1, 1, 0, 0, 2) && sin_t(1) == qc(0, 0, 1, 0, 0));
}

#[verifier::spinoff_prover]
pub(crate) proof fn rot_kpt_1_2()
    ensures
        rot36(kite_point(1), 2).x == qc(32, 32, 0, 0, 6),
        rot36(kite_point(1), 2).y == qc(0, 0, 0, 0, 6),
{
    lemma2_to64();
    assert(qc(1, 0, 0, 0, 1).times(qc(-1, 1, 0, 0, 2)) == qc(-8, 8, 0, 0, 6));
    assert(qc(0, 0, -3, -1, 1).times(qc(0, 0, 1, 1, 1)) == qc(-20, -12, 0, 0, 5));
    assert(qc(-8, 8, 0, 0, 6).minus(qc(-20, -12, 0, 0, 5)) == qc(32, 32, 0, 0, 6));
    assert(qc(1, 0, 0, 0, 1).times(qc(0, 0, 1, 1, 1)) == qc(0, 0, 8, 8, 5));
    assert(qc(0, 0, -3, -1, 1).times(qc(-1, 1, 0, 0, 2)) == qc(0, 0, -16, -16, 6));
    assert(qc(0, 0, 8, 8, 5).plus(qc(0, 0, -16, -16, 6)) == qc(0, 0, 0, 0, 6));
    assert(kite_point(1).x == qc(1, 0, 0, 0, 1) && kite_point(1).y == qc(0, 0, -3, -1, 1));
    assert(cos_t(2) == qc(-1, 1, 0, 0, 2) && sin_t(2) == qc(0, 0, 1, 1, 1));
}

#[verifier::spinoff_prover]
pub(crate) proof fn rot_kpt_1_3()
    ensures
        rot36(kite_point(1), 3).x == qc(48, 16, 0, 0, 6),
        rot36(kite_point(1), 3).y == qc(0, 0, 32, 32, 6),
{
    lemma2_to64();
    assert(qc(1, 0, 0, 0, 1).times(qc(1, -1, 0, 0, 2)) == qc(8, -8, 0, 0, 6));
    assert(qc(0, 0, -3, -1, 1).times(qc(0, 0, 1, 1, 1)) == qc(-20, -12, 0, 0, 5));
    assert(qc(8, -8, 0, 0, 6).minus(qc(-20, -12, 0, 0, 5)) == qc(48, 16, 0, 0, 6));
    assert(qc(1, 0, 0, 0, 1).times(qc(0, 0, 1, 1, 1)) == qc(0, 0, 8, 8, 5));
    assert(qc(0, 0, -3, -1, 1).times(qc(1, -1, 0, 0, 2)) == qc(0, 0, 16, 16, 6));
    assert(qc(0, 0, 8, 8, 5).plus(qc(0, 0, 16, 16, 6)) == qc(0, 0, 32, 32, 6));
    assert(kite_point(1).x == qc(1, 0, 0, 0, 1) && kite_point(1).y == qc(0, 0, -3, -1, 1));
    assert(cos_t(3) == qc(1, -1, 0, 0, 2) && sin_t(3) == qc(0, 0, 1, 1, 1));
}

#[verifier::spinoff_prover]
pub(crate) proof fn rot_kpt_1_4()
    ensures
        rot36(kite_point(1), 4).x == qc(32, 0, 0, 0, 6),
        rot36(kite_point(1), 4).y == qc(0, 0, 96, 32, 6),
{
    lemma2_to64();
    assert(qc(1, 0, 0, 0, 1).times(qc(-1, -1, 0, 0, 2)) == qc(-8, -8, 0, 0, 6));
    assert(qc(0, 0, -3, -1, 1).times(qc(0, 0, 1, 0, 0)) == qc(-10, -2, 0, 0, 4));
    assert(qc(-8, -8, 0, 0, 6).minus(qc(-10, -2, 0, 0, 4)) == qc(32, 0, 0, 0, 6));
    assert(qc(1, 0, 0, 0, 1).times(qc(0, 0, 1, 0, 0)) == qc(0, 0, 8, 0, 4));
    assert(qc(0, 0, -3, -1, 1).times(qc(-1, -1, 0, 0, 2)) == qc(0, 0, 64, 32, 6));
    assert(qc(0, 0, 8, 0, 4).plus(qc(0, 0, 64, 32, 6)) == qc(0, 0, 96, 32, 6));
    assert(kite_point(1).x == qc(1, 0, 0, 0, 1) && kite_point(1).y == qc(0, 0, -3, -1, 1));
    assert(cos_t(4) == qc(-1, -1, 0, 0, 2) && sin_t(4) == qc(0, 0, 1, 0, 0));
}

#[verifier::spinoff_prover]
pub(crate) proof fn rot_kpt_1_5()
    ensures
        rot36(kite_point(1), 5).x == qc(-8, 0, 0, 0, 4),
        rot36(kite_point(1), 5).y == qc(0, 0, 24, 8, 4),
{
    lemma2_to64();
    assert(qc(1, 0, 0, 0, 1).times(qc(-1, 0, 0, 0, 0)) == qc(-8, 0, 0, 0, 4));
    assert(qc(0, 0, -3, -1, 1).times(qc(0, 0, 0, 0, 0)) == qc(0, 0, 0, 0, 4));
    assert(qc(-8, 0, 0, 0, 4).minus(qc(0, 0, 0, 0, 4)) == qc(-8, 0, 0, 0, 4));
    assert(qc(1, 0, 0, 0, 1).times(qc(0, 0, 0, 0, 0)) == qc(0, 0, 0, 0, 4));
    assert(qc(0, 0, -3, -1, 1).times(qc(-1, 0, 0, 0, 0)) == qc(0, 0, 24, 8, 4));
    assert(qc(0, 0, 0, 0, 4).plus(qc(0, 0, 24, 8, 4)) == qc(0, 0, 24, 8, 4));
    assert(kite_point(1).x == qc(1, 0, 0, 0, 1) && kite_point(1).y == qc(0, 0, -3, -1, 1));
    assert(cos_t(5) == qc(-1, 0, 0, 0, 0) && sin_t(5) == qc(0, 0, 0, 0, 0));
}

#[verifier::spinoff_prover]
pub(crate) proof fn rot_kpt_1_6()
    ensures
        rot36(kite_point(1), 6).x == qc(-48, -16, 0, 0, 6),
        rot36(kite_point(1), 6).y == qc(0, 0, 32, 32, 6),
{
    lemma2_to64();
    assert(qc(1, 0, 0, 0, 1).times(qc(-1, -1, 0, 0, 2)) == qc(-8, -8, 0, 0, 6));
    assert(qc(0, 0, -3, -1, 1).times(qc(0, 0, -1, 0, 0)) == qc(10, 2, 0, 0, 4));
    assert(qc(-8, -8, 0, 0, 6).minus(qc(10, 2, 0, 0, 4)) == qc(-48, -16, 0, 0, 6));
    assert(qc(1, 0, 0, 0, 1).times(qc(0, 0, -1, 0, 0)) == qc(0, 0, -8, 0, 4));
    assert(qc(0, 0, -3, -1, 1).times(qc(-1, -1, 0, 0, 2)) == qc(0, 0, 64, 32, 6));
    assert(qc(0, 0, -8, 0, 4).plus(qc(0, 0, 64, 32, 6)) == qc(0, 0, 32, 32, 6));
    assert(kite_point(1).x == qc(1, 0, 0, 0, 1) && kite_point(1).y == qc(0, 0, -3, -1, 1));
    assert(cos_t(6) == qc(-1, -1, 0, 0, 2) && sin_t(6) == qc(0, 0, -1, 0, 0));
}

#[verifier::spinoff_prover]
pub(crate) proof fn rot_kpt_1_7()
    ensures
        rot36(kite_point(1), 7).x == qc(-32, -32, 0, 0, 6),
        rot36(kite_point(1), 7).y == qc(0, 0, 0, 0, 6),
{
    lemma2_to64();
    assert(qc(1, 0, 0, 0, 1).times(qc(1, -1, 0, 0, 2)) == qc(8, -8, 0, 0, 6));
    assert(qc(0, 0, -3, -1, 1).times(qc(0, 0, -1, -1, 1)) == qc(20, 12, 0, 0, 5));
    assert(qc(8, -8, 0, 0, 6).minus(qc(20, 12, 0, 0, 5)) == qc(-32, -32, 0, 0, 6));
    assert(qc(1, 0, 0, 0, 1).times(qc(0, 0, -1, -1, 1)) == qc(0, 0, -8, -8, 5));
    assert(qc(0, 0, -3, -1, 1).times(qc(1, -1, 0, 0, 2)) == qc(0, 0, 16, 16, 6));
    assert(qc(0, 0, -8, -8, 5).plus(qc(0, 0, 16, 16, 6)) == qc(0, 0, 0, 0, 6));
    assert(kite_point(1).x == qc(1, 0, 0, 0, 1) && kite_point(1).y == qc(0, 0, -3, -1, 1));
    assert(cos_t(7) == qc(1, -1, 0, 0, 2) && sin_t(7) == qc(0, 0, -1, -1, 1));
}

#[verifier::spinoff_prover]
pub(crate) proof fn rot_kpt_1_8()
    ensures
        rot36(kite_point(1), 8).x == qc(-48, -16, 0, 0, 6),
        rot36(kite_point(1), 8).y == qc(0, 0, -32, -32, 6),
{
    lemma2_to64();
    assert(qc(1, 0, 0, 0, 1).times(qc(-1, 1, 0, 0, 2)) == qc(-8, 8, 0, 0, 6));
    assert(qc(0, 0, -3, -1, 1).times(qc(0, 0, -1, -1, 1)) == qc(20, 12, 0, 0, 5));
    assert(qc(-8, 8, 0, 0, 6).minus(qc(20, 12, 0, 0, 5)) == qc(-48, -16, 0, 0, 6));
    assert(qc(1, 0, 0, 0, 1).times(qc(0, 0, -1, -1, 1)) == qc(0, 0, -8, -8, 5));
    assert(qc(0, 0, -3, -1, 1).times(qc(-1, 1, 0, 0, 2)) == qc(0, 0, -16, -16, 6));
    assert(qc(0, 0, -8, -8, 5).plus(qc(0, 0, -16, -16, 6)) == qc(0, 0, -32, -32, 6));
    assert(kite_point(1).x == qc(1, 0, 0, 0, 1) && kite_point(1).y == qc(0, 0, -3, -1, 1));
    assert(cos_t(8) == qc(-1, 1, 0, 0, 2) && sin_t(8) == qc(0, 0, -1, -1, 1));
}

#[verifier::spinoff_prover]
pub(crate) proof fn rot_kpt_1_9()
    ensures
        rot36(kite_point(1), 9).x == qc(-32, 0, 0, 0, 6),
        rot36(kite_point(1), 9).y == qc(0, 0, -96, -32, 6),
{
    lemma2_to64();
    assert(qc(1, 0, 0, 0, 1).times(qc(1, 1, 0, 0, 2)) == qc(8, 8, 0, 0, 6));
    assert(qc(0, 0, -3, -1, 1).times(qc(0, 0, -1, 0, 0)) == qc(10, 2, 0, 0, 4));
    assert(qc(8, 8, 0, 0, 6).minus(qc(10, 2, 0, 0, 4)) == qc(-32, 0, 0, 0, 6));
    assert(qc(1, 0, 0, 0, 1).times(qc(0, 0, -1, 0, 0)) == qc(0, 0, -8, 0, 4));
    assert(qc(0, 0, -3, -1, 1).times(qc(1, 1, 0, 0, 2)) == qc(0, 0, -64, -32, 6));
    assert(qc(0, 0, -8, 0, 4).plus(qc(0, 0, -64, -32, 6)) == qc(0, 0, -96, -32, 6));
    assert(kite_point(1).x == qc(1, 0, 0, 0, 1) && kite_point(1).y == qc(0, 0, -3, -1, 1));
    assert(cos_t(9) == qc(1, 1, 0, 0, 2) && sin_t(9) == qc(0, 0, -1, 0, 0));
}

#[verifier::spinoff_prover]
pub(crate) proof fn rot_kpt_2_0()
    ensures
        rot36(kite_point(2), 0).x == qc(8, 0, 0, 0, 3),
        rot36(kite_point(2), 0).y == qc(0, 0, 0, 0, 3),
{
    lemma2_to64();
    assert(qc(1, 0, 0, 0, 0).times(qc(1, 0, 0, 0, 0)) == qc(8, 0, 0, 0, 3));
    assert(qc(0, 0, 0, 0, 0).times(qc(0, 0, 0, 0, 0)) == qc(0, 0, 0, 0, 3));
    assert(qc(8, 0, 0, 0, 3).minus(qc(0, 0, 0, 0, 3)) == qc(8, 0, 0, 0, 3));
    assert(qc(1, 0, 0, 0, 0).times(qc(0, 0, 0, 0, 0)) == qc(0, 0, 0, 0, 3));
    assert(qc(0, 0, 0, 0, 0).times(qc(1, 0, 0, 0, 0)) == qc(0, 0, 0, 0, 3));
    assert(qc(0, 0, 0, 0, 3).plus(qc(0, 0, 0, 0, 3)) == qc(0, 0, 0, 0, 3));
    assert(kite_point(2).x == qc(1, 0, 0, 0, 0) && kite_point(2).y == qc(0, 0, 0, 0, 0));
    assert(cos_t(0) == qc(1, 0, 0, 0, 0) && sin_t(0) == qc(0, 0, 0, 0, 0));
}

#[verifier::spinoff_prover]
pub(crate) proof fn rot_kpt_2_1()
    ensures
        rot36(kite_point(2), 1).x == qc(8, 8, 0, 0, 5),
        rot36(kite_point(2), 1).y == qc(0, 0, 32, 0, 5),
{
    lemma2_to64();
    assert(qc(1, 0, 0, 0, 0).times(qc(1, 1, 0, 0, 2)) == qc(8, 8, 0, 0, 5));
    assert(qc(0, 0, 0, 0, 0).times(qc(0, 0, 1, 0, 0)) == qc(0, 0, 0, 0, 3));
    assert(qc(8, 8, 0, 0, 5).minus(qc(0, 0, 0, 0, 3)) == qc(8, 8, 0, 0, 5));
    assert(qc(1, 0, 0, 0, 0).times(qc(0, 0, 1, 0, 0)) == qc(0, 0, 8, 0, 3));
    assert(qc(0, 0, 0, 0, 0).times(qc(1, 1, 0, 0, 2)) == qc(0, 0, 0, 0, 5));
    assert(qc(0, 0, 8, 0, 3).plus(qc(0, 0, 0, 0, 5)) == qc(0, 0, 32, 0, 5));
    assert(kite_point(2).x == qc(1, 0, 0, 0, 0) && kite_point(2).y == qc(0, 0, 0, 0, 0));
    assert(cos_t(1) == qc(1, 1, 0, 0, 2) && sin_t(1) == qc(0, 0, 1, 0, 0));
}

#[verifier::spinoff_prover]
pub(crate) proof fn rot_kpt_2_2()
    ensures
        rot36(kite_point(2), 2).x == qc(-8, 8, 0, 0, 5),
        rot36(kite_point(2), 2).y == qc(0, 0, 16, 16, 5),
{
    lemma2_to64();
    assert(qc(1, 0, 0, 0, 0).times(qc(-1, 1, 0, 0, 2)) == qc(-8, 8, 0, 0, 5));
    assert(qc(0, 0, 0, 0, 0).times(qc(0, 0, 1, 1, 1)) == qc(0, 0, 0, 0, 4));
    assert(qc(-8, 8, 0, 0, 5).minus(qc(0, 0, 0, 0, 4)) == qc(-8, 8, 0, 0, 5));
    assert(qc(1, 0, 0, 0, 0).times(qc(0, 0, 1, 1, 1)) == qc(0, 0, 8, 8, 4));
    assert(qc(0, 0, 0, 0, 0).times(qc(-1, 1, 0, 0, 2)) == qc(0, 0, 0, 0, 5));
    assert(qc(0, 0, 8, 8, 4).plus(qc(0, 0, 0, 0, 5)) == qc(0, 0, 16, 16, 5));
    assert(kite_point(2).x == qc(1, 0, 0, 0, 0) && kite_point(2).y == qc(0, 0, 0, 0, 0));
    assert(cos_t(2) == qc(-1, 1, 0, 0, 2) && sin_t(2) == qc(0, 0, 1, 1, 1));
}

#[verifier::spinoff_prover]
pub(crate) proof fn rot_kpt_2_3()
    ensures
        rot36(kite_point(2), 3).x == qc(8, -8, 0, 0, 5),
        rot36(kite_point(2), 3).y == qc(0, 0, 16, 16, 5),
{
    lemma2_to64();
    assert(qc(1, 0, 0, 0, 0).times(qc(1, -1, 0, 0, 2)) == qc(8, -8, 0, 0, 5));
    assert(qc(0, 0, 0, 0, 0).times(qc(0, 0, 1, 1, 1)) == qc(0, 0, 0, 0, 4));
    assert(qc(8, -8, 0, 0, 5).minus(qc(0, 0, 0, 0, 4)) == qc(8, -8, 0, 0, 5));
    assert(qc(1, 0, 0, 0, 0).times(qc(0, 0, 1, 1, 1)) == qc(0, 0, 8, 8, 4));
    assert(qc(0, 0, 0, 0, 0).times(qc(1, -1, 0, 0, 2)) == qc(0, 0, 0, 0, 5));
    assert(qc(0, 0, 8, 8, 4).plus(qc(0, 0, 0, 0, 5)) == qc(0, 0, 16, 16, 5));
    assert(kite_point(2).x == qc(1, 0, 0, 0, 0) && kite_point(2).y == qc(0, 0, 0, 0, 0));
    assert(cos_t(3) == qc(1, -1, 0, 0, 2) && sin_t(3) == qc(0, 0, 1, 1, 1));
}

#[verifier::spinoff_prover]
pub(crate) proof fn rot_kpt_2_4()
    ensures
        rot36(kite_point(2), 4).x == qc(-8, -8, 0, 0, 5),
        rot36(kite_point(2), 4).y == qc(0, 0, 32, 0, 5),
{
    lemma2_to64();
    assert(qc(1, 0, 0, 0, 0).times(qc(-1, -1, 0, 0, 2)) == qc(-8, -8, 0, 0, 5));
    assert(qc(0, 0, 0, 0, 0).times(qc(0, 0, 1, 0, 0)) == qc(0, 0, 0, 0, 3));
    assert(qc(-8, -8, 0, 0, 5).minus(qc(0, 0, 0, 0, 3)) == qc(-8, -8, 0, 0, 5));
    assert(qc(1, 0, 0, 0, 0).times(qc(0, 0, 1, 0, 0)) == qc(0, 0, 8, 0, 3));
    assert(qc(0, 0, 0, 0, 0).times(qc(-1, -1, 0, 0, 2)) == qc(0, 0, 0, 0, 5));
    assert(qc(0, 0, 8, 0, 3).plus(qc(0, 0, 0, 0, 5)) == qc(0, 0, 32, 0, 5));
    assert(kite_point(2).x == qc(1, 0, 0, 0, 0) && kite_point(2).y == qc(0, 0, 0, 0, 0));
    assert(cos_t(4) == qc(-1, -1, 0, 0, 2) && sin_t(4) == qc(0, 0, 1, 0, 0));
}

#[verifier::spinoff_prover]
pub(crate) proof fn rot_kpt_2_5()
    ensures
        rot36(kite_point(2), 5).x == qc(-8, 0, 0, 0, 3),
        rot36(kite_point(2), 5).y == qc(0, 0, 0, 0, 3),
{
    lemma2_to64();
    assert(qc(1, 0, 0, 0, 0).times(qc(-1, 0, 0, 0, 0)) == qc(-8, 0, 0, 0, 3));
    assert(qc(0, 0, 0, 0, 0).times(qc(0, 0, 0, 0, 0)) == qc(0, 0, 0, 0, 3));
    assert(qc(-8, 0, 0, 0, 3).minus(qc(0, 0, 0, 0, 3)) == qc(-8, 0, 0, 0, 3));
    assert(qc(1, 0, 0, 0, 0).times(qc(0, 0, 0, 0, 0)) == qc(0, 0, 0, 0, 3));
    assert(qc(0, 0, 0, 0, 0).times(qc(-1, 0, 0, 0, 0)) == qc(0, 0, 0, 0, 3));
    assert(qc(0, 0, 0, 0, 3).plus(qc(0, 0, 0, 0, 3)) == qc(0, 0, 0, 0, 3));
    assert(kite_point(2).x == qc(1, 0, 0, 0, 0) && kite_point(2).y == qc(0, 0, 0, 0, 0));
    assert(cos_t(5) == qc(-1, 0, 0, 0, 0) && sin_t(5) == qc(0, 0, 0, 0, 0));
}

#[verifier::spinoff_prover]
pub(crate) proof fn rot_kpt_2_6()
    ensures
        rot36(kite_point(2), 6).x == qc(-8, -8, 0, 0, 5),
        rot36(kite_point(2), 6).y == qc(0, 0, -32, 0, 5),
{
    lemma2_to64();
    assert(qc(1, 0, 0, 0, 0).times(qc(-1, -1, 0, 0, 2)) == qc(-8, -8, 0, 0, 5));
    assert(qc(0, 0, 0, 0, 0).times(qc(0, 0, -1, 0, 0)) == qc(0, 0, 0, 0, 3));
    assert(qc(-8, -8, 0, 0, 5).minus(qc(0, 0, 0, 0, 3)) == qc(-8, -8, 0, 0, 5));
    assert(qc(1, 0, 0, 0, 0).times(qc(0, 0, -1, 0, 0)) == qc(0, 0, -8, 0, 3));
    assert(qc(0, 0, 0, 0, 0).times(qc(-1, -1, 0, 0, 2)) == qc(0, 0, 0, 0, 5));
    assert(qc(0, 0, -8, 0, 3).plus(qc(0, 0, 0, 0, 5)) == qc(0, 0, -32, 0, 5));
    assert(kite_point(2).x == qc(1, 0, 0, 0, 0) && kite_point(2).y == qc(0, 0, 0, 0, 0));
    assert(cos_t(6) == qc(-1, -1, 0, 0, 2) && sin_t(6) == qc(0, 0, -1, 0, 0));
}

#[verifier::spinoff_prover]
pub(crate) proof fn rot_kpt_2_7()
    ensures
        rot36(kite_point(2), 7).x == qc(8, -8, 0, 0, 5),
        rot36(kite_point(2), 7).y == qc(0, 0, -16, -16, 5),
{
    lemma2_to64();
    assert(qc(1, 0, 0, 0, 0).times(qc(1, -1, 0, 0, 2)) == qc(8, -8, 0, 0, 5));
    assert(qc(0, 0, 0, 0, 0).times(qc(0, 0, -1, -1, 1)) == qc(0, 0, 0, 0, 4));
    assert(qc(8, -8, 0, 0, 5).minus(qc(0, 0, 0, 0, 4)) == qc(8, -8, 0, 0, 5));
    assert(qc(1, 0, 0, 0, 0).times(qc(0, 0, -1, -1, 1)) == qc(0, 0, -8, -8, 4));
    assert(qc(0, 0, 0, 0, 0).times(qc(1, -1, 0, 0, 2)) == qc(0, 0, 0, 0, 5));
    assert(qc(0, 0, -8, -8, 4).plus(qc(0, 0, 0, 0, 5)) == qc(0, 0, -16, -16, 5));
    assert(kite_point(2).x == qc(1, 0, 0, 0, 0) && kite_point(2).y == qc(0, 0, 0, 0, 0));
    assert(cos_t(7) == qc(1, -1, 0, 0, 2) && sin_t(7) == qc(0, 0, -1, -1, 1));
}

#[verifier::spinoff_prover]
pub(crate) proof fn rot_kpt_2_8()
    ensures
        rot36(kite_point(2), 8).x == qc(-8, 8, 0, 0, 5),
        rot36(kite_point(2), 8).y == qc(0, 0, -16, -16, 5),
{
    lemma2_to64();
    assert(qc(1, 0, 0, 0, 0).times(qc(-1, 1, 0, 0, 2)) == qc(-8, 8, 0, 0, 5));
    assert(qc(0, 0, 0, 0, 0).times(qc(0, 0, -1, -1, 1)) == qc(0, 0, 0, 0, 4));
    assert(qc(-8, 8, 0, 0, 5).minus(qc(0, 0, 0, 0, 4)) == qc(-8, 8, 0, 0, 5));
    assert(qc(1, 0, 0, 0, 0).times(qc(0, 0, -1, -1, 1)) == qc(0, 0, -8, -8, 4));
    assert(qc(0, 0, 0, 0, 0).times(qc(-1, 1, 0, 0, 2)) == qc(0, 0, 0, 0, 5));
    assert(qc(0, 0, -8, -8, 4).plus(qc(0, 0, 0, 0, 5)) == qc(0, 0, -16, -16, 5));
    assert(kite_point(2).x == qc(1, 0, 0, 0, 0) && kite_point(2).y == qc(0, 0, 0, 0, 0));
    assert(cos_t(8) == qc(-1, 1, 0, 0, 2) && sin_t(8) == qc(0, 0, -1, -1, 1));
}

#[verifier::spinoff_prover]
pub(crate) proof fn rot_kpt_2_9()
    ensures
        rot36(kite_point(2), 9).x == qc(8, 8, 0, 0, 5),
        rot36(kite_point(2), 9).y == qc(0, 0, -32, 0, 5),
{
    lemma2_to64();
    assert(qc(1, 0, 0, 0, 0).times(qc(1, 1, 0, 0, 2)) == qc(8, 8, 0, 0, 5));
    assert(qc(0, 0, 0, 0, 0).times(qc(0, 0, -1, 0, 0)) == qc(0, 0, 0, 0, 3));
    assert(qc(8, 8, 0, 0, 5).minus(qc(0, 0, 0, 0, 3)) == qc(8, 8, 0, 0, 5));
    assert(qc(1, 0, 0, 0, 0).times(qc(0, 0, -1, 0, 0)) == qc(0, 0, -8, 0, 3));
    assert(qc(0, 0, 0, 0, 0).times(qc(1, 1, 0, 0, 2)) == qc(0, 0, 0, 0, 5));
    assert(qc(0, 0, -8, 0, 3).plus(qc(0, 0, 0, 0, 5)) == qc(0, 0, -32, 0, 5));
    assert(kite_point(2).x == qc(1, 0, 0, 0, 0) && kite_point(2).y == qc(0, 0, 0, 0, 0));
    assert(cos_t(9) == qc(1, 1, 0, 0, 2) && sin_t(9) == qc(0, 0, -1, 0, 0));
}

#[verifier::spinoff_prover]
pub(crate) proof fn rot_kpt_3_0()
    ensures
        rot36(kite_point(3), 0).x == qc(8, 0, 0, 0, 4),
        rot36(kite_point(3), 0).y == qc(0, 0, 24, 8, 4),
{
    lemma2_to64();
    assert(qc(1, 0, 0, 0, 1).times(qc(1, 0, 0, 0, 0)) == qc(8, 0, 0, 0, 4));
    assert(qc(0, 0, 3, 1, 1).times(qc(0, 0, 0, 0, 0)) == qc(0, 0, 0, 0, 4));
    assert(qc(8, 0, 0, 0, 4).minus(qc(0, 0, 0, 0, 4)) == qc(8, 0, 0, 0, 4));
    assert(qc(1, 0, 0, 0, 1).times(qc(0, 0, 0, 0, 0)) == qc(0, 0, 0, 0, 4));
    assert(qc(0, 0, 3, 1, 1).times(qc(1, 0, 0, 0, 0)) == qc(0, 0, 24, 8, 4));
    assert(qc(0, 0, 0, 0, 4).plus(qc(0, 0, 24, 8, 4)) == qc(0, 0, 24, 8, 4));
    assert(kite_point(3).x == qc(1, 0, 0, 0, 1) && kite_point(3).y == qc(0, 0, 3, 1, 1));
    assert(cos_t(0) == qc(1, 0, 0, 0, 0) && sin_t(0) == qc(0, 0, 0, 0, 0));
}

#[verifier::spinoff_prover]
pub(crate) proof fn rot_kpt_3_1()
    ensures
        rot36(kite_point(3), 1).x == qc(-32, 0, 0, 0, 6),
        rot36(kite_point(3), 1).y == qc(0, 0, 96, 32, 6),
{
    lemma2_to64();
    assert(qc(1, 0, 0, 0, 1).times(qc(1, 1, 0, 0, 2)) == qc(8, 8, 0, 0, 6));
    assert(qc(0, 0, 3, 1, 1).times(qc(0, 0, 1, 0, 0)) == qc(10, 2, 0, 0, 4));
    assert(qc(8, 8, 0, 0, 6).minus(qc(10, 2, 0, 0, 4)) == qc(-32, 0, 0, 0, 6));
    assert(qc(1, 0, 0, 0, 1).times(qc(0, 0, 1, 0, 0)) == qc(0, 0, 8, 0, 4));
    assert(qc(0, 0, 3, 1, 1).times(qc(1, 1, 0, 0, 2)) == qc(0, 0, 64, 32, 6));
    assert(qc(0, 0, 8, 0, 4).plus(qc(0, 0, 64, 32, 6)) == qc(0, 0, 96, 32, 6));
    assert(kite_point(3).x == qc(1, 0, 0, 0, 1) && kite_point(3).y == qc(0, 0, 3, 1, 1));
    assert(cos_t(1) == qc(1, 1, 0, 0, 2) && sin_t(1) == qc(0, 0, 1, 0, 0));
}

#[verifier::spinoff_prover]
pub(crate) proof fn rot_kpt_3_2()
    ensures
        rot36(kite_point(3), 2).x == qc(-48, -16, 0, 0, 6),
        rot36(kite_point(3), 2).y == qc(0, 0, 32, 32, 6),
{
    lemma2_to64();
    assert(qc(1, 0, 0, 0, 1).times(qc(-1, 1, 0, 0, 2)) == qc(-8, 8, 0, 0, 6));
    assert(qc(0, 0, 3, 1, 1).times(qc(0, 0, 1, 1, 1)) == qc(20, 12, 0, 0, 5));
    assert(qc(-8, 8, 0, 0, 6).minus(qc(20, 12, 0, 0, 5)) == qc(-48, -16, 0, 0, 6));
    assert(qc(1, 0, 0, 0, 1).times(qc(0, 0, 1, 1, 1)) == qc(0, 0, 8, 8, 5));
    assert(qc(0, 0, 3, 1, 1).times(qc(-1, 1, 0, 0, 2)) == qc(0, 0, 16, 16, 6));
    assert(qc(0, 0, 8, 8, 5).plus(qc(0, 0, 16, 16, 6)) == qc(0, 0, 32, 32, 6));
    assert(kite_point(3).x == qc(1, 0, 0, 0, 1) && kite_point(3).y == qc(0, 0, 3, 1, 1));
    assert(cos_t(2) == qc(-1, 1, 0, 0, 2) && sin_t(2) == qc(0, 0, 1, 1, 1));
}

#[verifier::spinoff_prover]
pub(crate) proof fn rot_kpt_3_3()
    ensures
        rot36(kite_point(3), 3).x == qc(-32, -32, 0, 0, 6),
        rot36(kite_point(3), 3).y == qc(0, 0, 0, 0, 6),
{
    lemma2_to64();
    assert(qc(1, 0, 0, 0, 1).times(qc(1, -1, 0, 0, 2)) == qc(8, -8, 0, 0, 6));
    assert(qc(0, 0, 3, 1, 1).times(qc(0, 0, 1, 1, 1)) == qc(20, 12, 0, 0, 5));
    assert(qc(8, -8, 0, 0, 6).minus(qc(20, 12, 0, 0, 5)) == qc(-32, -32, 0, 0, 6));
    assert(qc(1, 0, 0, 0, 1).times(qc(0, 0, 1, 1, 1)) == qc(0, 0, 8, 8, 5));
    assert(qc(0, 0, 3, 1, 1).times(qc(1, -1, 0, 0, 2)) == qc(0, 0, -16, -16, 6));
    assert(qc(0, 0, 8, 8, 5).plus(qc(0, 0, -16, -16, 6)) == qc(0, 0, 0, 0, 6));
    assert(kite_point(3).x == qc(1, 0, 0, 0, 1) && kite_point(3).y == qc(0, 0, 3, 1, 1));
    assert(cos_t(3) == qc(1, -1, 0, 0, 2) && sin_t(3) == qc(0, 0, 1, 1, 1));
}

#[verifier::spinoff_prover]
pub(crate) proof fn rot_kpt_3_4()
    ensures
        rot36(kite_point(3), 4).x == qc(-48, -16, 0, 0, 6),
        rot36(kite_point(3), 4).y == qc(0, 0, -32, -32, 6),
{
    lemma2_to64();
    assert(qc(1, 0, 0, 0, 1).times(qc(-1, -1, 0, 0, 2)) == qc(-8, -8, 0, 0, 6));
    assert(qc(0, 0, 3, 1, 1).times(qc(0, 0, 1, 0, 0)) == qc(10, 2, 0, 0, 4));
    assert(qc(-8, -8, 0, 0, 6).minus(qc(10, 2, 0, 0, 4)) == qc(-48, -16, 0, 0, 6));
    assert(qc(1, 0, 0, 0, 1).times(qc(0, 0, 1, 0, 0)) == qc(0, 0, 8, 0, 4));
    assert(qc(0, 0, 3, 1, 1).times(qc(-1, -1, 0, 0, 2)) == qc(0, 0, -64, -32, 6));
    assert(qc(0, 0, 8, 0, 4).plus(qc(0, 0, -64, -32, 6)) == qc(0, 0, -32, -32, 6));
    assert(kite_point(3).x == qc(1, 0, 0, 0, 1) && kite_point(3).y == qc(0, 0, 3, 1, 1));
    assert(cos_t(4) == qc(-1, -1, 0, 0, 2) && sin_t(4) == qc(0, 0, 1, 0, 0));
}

#[verifier::spinoff_prover]
pub(crate) proof fn rot_kpt_3_5()
    ensures
        rot36(kite_point(3), 5).x == qc(-8, 0, 0, 0, 4),
        rot36(kite_point(3), 5).y == qc(0, 0, -24, -8, 4),
{
    lemma2_to64();
    assert(qc(1, 0, 0, 0, 1).times(qc(-1, 0, 0, 0, 0)) == qc(-8, 0, 0, 0, 4));
    assert(qc(0, 0, 3, 1, 1).times(qc(0, 0, 0, 0, 0)) == qc(0, 0, 0, 0, 4));
    assert(qc(-8, 0, 0, 0, 4).minus(qc(0, 0, 0, 0, 4)) == qc(-8, 0, 0, 0, 4));
    assert(qc(1, 0, 0, 0, 1).times(qc(0, 0, 0, 0, 0)) == qc(0, 0, 0, 0, 4));
    assert(qc(0, 0, 3, 1, 1).times(qc(-1, 0, 0, 0, 0)) == qc(0, 0, -24, -8, 4));
    assert(qc(0, 0, 0, 0, 4).plus(qc(0, 0, -24, -8, 4)) == qc(0, 0, -24, -8, 4));
    assert(kite_point(3).x == qc(1, 0, 0, 0, 1) && kite_point(3).y == qc(0, 0, 3, 1, 1));
    assert(cos_t(5) == qc(-1, 0, 0, 0, 0) && sin_t(5) == qc(0, 0, 0, 0, 0));
}

#[verifier::spinoff_prover]
pub(crate) proof fn rot_kpt_3_6()
    ensures
        rot36(kite_point(3), 6).x == qc(32, 0, 0, 0, 6),
        rot36(kite_point(3), 6).y == qc(0, 0, -96, -32, 6),
{
    lemma2_to64();
    assert(qc(1, 0, 0, 0, 1).times(qc(-1, -1, 0, 0, 2)) == qc(-8, -8, 0, 0, 6));
    assert(qc(0, 0, 3, 1, 1).times(qc(0, 0, -1, 0, 0)) == qc(-10, -2, 0, 0, 4));
    assert(qc(-8, -8, 0, 0, 6).minus(qc(-10, -2, 0, 0, 4)) == qc(32, 0, 0, 0, 6));
    assert(qc(1, 0, 0, 0, 1).times(qc(0, 0, -1, 0, 0)) == qc(0, 0, -8, 0, 4));
    assert(qc(0, 0, 3, 1, 1).times(qc(-1, -1, 0, 0, 2)) == qc(0, 0, -64, -32, 6));
    assert(qc(0, 0, -8, 0, 4).plus(qc(0, 0, -64, -32, 6)) == qc(0, 0, -96, -32, 6));
    assert(kite_point(3).x == qc(1, 0, 0, 0, 1) && kite_point(3).y == qc(0, 0, 3, 1, 1));
    assert(cos_t(6) == qc(-1, -1, 0, 0, 2) && sin_t(6) == qc(0, 0, -1, 0, 0));
}

#[verifier::spinoff_prover]
pub(crate) proof fn rot_kpt_3_7()
    ensures
        rot36(kite_point(3), 7).x == qc(48, 16, 0, 0, 6),
        rot36(kite_point(3), 7).y == qc(0, 0, -32, -32, 6),
{
    lemma2_to64();
    assert(qc(1, 0, 0, 0, 1).times(qc(1, -1, 0, 0, 2)) == qc(8, -8, 0, 0, 6));
    assert(qc(0, 0, 3, 1, 1).times(qc(0, 0, -1, -1, 1)) == qc(-20, -12, 0, 0, 5));
    assert(qc(8, -8, 0, 0, 6).minus(qc(-20, -12, 0, 0, 5)) == qc(48, 16, 0, 0, 6));
    assert(qc(1, 0, 0, 0, 1).times(qc(0, 0, -1, -1, 1)) == qc(0, 0, -8, -8, 5));
    assert(qc(0, 0, 3, 1, 1).times(qc(1, -1, 0, 0, 2)) == qc(0, 0, -16, -16, 6));
    assert(qc(0, 0, -8, -8, 5).plus(qc(0, 0, -16, -16, 6)) == qc(0, 0, -32, -32, 6));
    assert(kite_point(3).x == qc(1, 0, 0, 0, 1) && kite_point(3).y == qc(0, 0, 3, 1, 1));
    assert(cos_t(7) == qc(1, -1, 0, 0, 2) && sin_t(7) == qc(0, 0, -1, -1, 1));
}

#[verifier::spinoff_prover]
pub(crate) proof fn rot_kpt_3_8()
    ensures
        rot36(kite_point(3), 8).x == qc(32, 32, 0, 0, 6),
        rot36(kite_point(3), 8).y == qc(0, 0, 0, 0, 6),
{
    lemma2_to64();
    assert(qc(1, 0, 0, 0, 1).times(qc(-1, 1, 0, 0, 2)) == qc(-8, 8, 0, 0, 6));
    assert(qc(0, 0, 3, 1, 1).times(qc(0, 0, -1, -1, 1)) == qc(-20, -12, 0, 0, 5));
    assert(qc(-8, 8, 0, 0, 6).minus(qc(-20, -12, 0, 0, 5)) == qc(32, 32, 0, 0, 6));
    assert(qc(1, 0, 0, 0, 1).times(qc(0, 0, -1, -1, 1)) == qc(0, 0, -8, -8, 5));
    assert(qc(0, 0, 3, 1, 1).times(qc(-1, 1, 0, 0, 2)) == qc(0, 0, 16, 16, 6));
    assert(qc(0, 0, -8, -8, 5).plus(qc(0, 0, 16, 16, 6)) == qc(0, 0, 0, 0, 6));
    assert(kite_point(3).x == qc(1, 0, 0, 0, 1) && kite_point(3).y == qc(0, 0, 3, 1, 1));
    assert(cos_t(8) == qc(-1, 1, 0, 0, 2) && sin_t(8) == qc(0, 0, -1, -1, 1));
}

#[verifier::spinoff_prover]
pub(crate) proof fn rot_kpt_3_9()
    ensures
        rot36(kite_point(3), 9).x == qc(48, 16, 0, 0, 6),
        rot36(kite_point(3), 9).y == qc(0, 0, 32, 32, 6),
{
    lemma2_to64();
    assert(qc(1, 0, 0, 0, 1).times(qc(1, 1, 0, 0, 2)) == qc(8, 8, 0, 0, 6));
    assert(qc(0, 0, 3, 1, 1).times(qc(0, 0, -1, 0, 0)) == qc(-10, -2, 0, 0, 4));
    assert(qc(8, 8, 0, 0, 6).minus(qc(-10, -2, 0, 0, 4)) == qc(48, 16, 0, 0, 6));
    assert(qc(1, 0, 0, 0, 1).times(qc(0, 0, -1, 0, 0)) == qc(0, 0, -8, 0, 4));
    assert(qc(0, 0, 3, 1, 1).times(qc(1, 1, 0, 0, 2)) == qc(0, 0, 64, 32, 6));
    assert(qc(0, 0, -8, 0, 4).plus(qc(0, 0, 64, 32, 6)) == qc(0, 0, 32, 32, 6));
    assert(kite_point(3).x == qc(1, 0, 0, 0, 1) && kite_point(3).y == qc(0, 0, 3, 1, 1));
    assert(cos_t(9) == qc(1, 1, 0, 0, 2) && sin_t(9) == qc(0, 0, -1, 0, 0));
}

#[verifier::spinoff_prover]
pub(crate) proof fn rot_kdel_1_0()
    ensures
        rot36(kite_delta(1), 0).x == qc(0, 8, 0, 0, 5),
        rot36(kite_delta(1), 0).y == qc(0, 0, 24, 8, 5),
{
    lemma2_to64();
    assert(qc(0, 1, 0, 0, 2).times(qc(1, 0, 0, 0, 0)) == qc(0, 8, 0, 0, 5));
    assert(qc(0, 0, 3, 1, 2).times(qc(0, 0, 0, 0, 0)) == qc(0, 0, 0, 0, 5));
    assert(qc(0, 8, 0, 0, 5).minus(qc(0, 0, 0, 0, 5)) == qc(0, 8, 0, 0, 5));
    assert(qc(0, 1, 0, 0, 2).times(qc(0, 0, 0, 0, 0)) == qc(0, 0, 0, 0, 5));
    assert(qc(0, 0, 3, 1, 2).times(qc(1, 0, 0, 0, 0)) == qc(0, 0, 24, 8, 5));
    assert(qc(0, 0, 0, 0, 5).plus(qc(0, 0, 24, 8, 5)) == qc(0, 0, 24, 8, 5));
    assert(kite_delta(1).x == qc(0, 1, 0, 0, 2) && kite_delta(1).y == qc(0, 0, 3, 1, 2));
    assert(cos_t(0) == qc(1, 0, 0, 0, 0) && sin_t(0) == qc(0, 0, 0, 0, 0));
}

#[verifier::spinoff_prover]
pub(crate) proof fn rot_kdel_1_1()
    ensures
        rot36(kite_delta(1), 1).x == qc(0, 0, 0, 0, 7),
        rot36(kite_delta(1), 1).y == qc(0, 0, 64, 64, 7),
{
    lemma2_to64();
    assert(qc(0, 1, 0, 0, 2).times(qc(1, 1, 0, 0, 2)) == qc(40, 8, 0, 0, 7));
    assert(qc(0, 0, 3, 1, 2).times(qc(0, 0, 1, 0, 0)) == qc(10, 2, 0, 0, 5));
    assert(qc(40, 8, 0, 0, 7).minus(qc(10, 2, 0, 0, 5)) == qc(0, 0, 0, 0, 7));
    assert(qc(0, 1, 0, 0, 2).times(qc(0, 0, 1, 0, 0)) == qc(0, 0, 0, 8, 5));
    assert(qc(0, 0, 3, 1, 2).times(qc(1, 1, 0, 0, 2)) == qc(0, 0, 64, 32, 7));
    assert(qc(0, 0, 0, 8, 5).plus(qc(0, 0, 64, 32, 7)) == qc(0, 0, 64, 64, 7));
    assert(kite_delta(1).x == qc(0, 1, 0, 0, 2) && kite_delta(1).y == qc(0, 0, 3, 1, 2));
    assert(cos_t(1) == qc(1, 1, 0, 0, 2) && sin_t(1) == qc(0, 0, 1, 0, 0));
}

#[verifier::spinoff_prover]
pub(crate) proof fn rot_kdel_1_2()
    ensures
        rot36(kite_delta(1), 2).x == qc(0, -32, 0, 0, 7),
        rot36(kite_delta(1), 2).y == qc(0, 0, 96, 32, 7),
{
    lemma2_to64();
    assert(qc(0, 1, 0, 0, 2).times(qc(-1, 1, 0, 0, 2)) == qc(40, -8, 0, 0, 7));
    assert(qc(0, 0, 3, 1, 2).times(qc(0, 0, 1, 1, 1)) == qc(20, 12, 0, 0, 6));
    assert(qc(40, -8, 0, 0, 7).minus(qc(20, 12, 0, 0, 6)) == qc(0, -32, 0, 0, 7));
    assert(qc(0, 1, 0, 0, 2).times(qc(0, 0, 1, 1, 1)) == qc(0, 0, 40, 8, 6));
    assert(qc(0, 0, 3, 1, 2).times(qc(-1, 1, 0, 0, 2)) == qc(0, 0, 16, 16, 7));
    assert(qc(0, 0, 40, 8, 6).plus(qc(0, 0, 16, 16, 7)) == qc(0, 0, 96, 32, 7));
    assert(kite_delta(1).x == qc(0, 1, 0, 0, 2) && kite_delta(1).y == qc(0, 0, 3, 1, 2));
    assert(cos_t(2) == qc(-1, 1, 0, 0, 2) && sin_t(2) == qc(0, 0, 1, 1, 1));
}

#[verifier::spinoff_prover]
pub(crate) proof fn rot_kdel_1_3()
    ensures
        rot36(kite_delta(1), 3).x == qc(-80, -16, 0, 0, 7),
        rot36(kite_delta(1), 3).y == qc(0, 0, 64, 0, 7),
{
    lemma2_to64();
    assert(qc(0, 1, 0, 0, 2).times(qc(1, -1, 0, 0, 2)) == qc(-40, 8, 0, 0, 7));
    assert(qc(0, 0, 3, 1, 2).times(qc(0, 0, 1, 1, 1)) == qc(20, 12, 0, 0, 6));
    assert(qc(-40, 8, 0, 0, 7).minus(qc(20, 12, 0, 0, 6)) == qc(-80, -16, 0, 0, 7));
    assert(qc(0, 1, 0, 0, 2).times(qc(0, 0, 1, 1, 1)) == qc(0, 0, 40, 8, 6));
    assert(qc(0, 0, 3, 1, 2).times(qc(1, -1, 0, 0, 2)) == qc(0, 0, -16, -16, 7));
    assert(qc(0, 0, 40, 8, 6).plus(qc(0, 0, -16, -16, 7)) == qc(0, 0, 64, 0, 7));
    assert(kite_delta(1).x == qc(0, 1, 0, 0, 2) && kite_delta(1).y == qc(0, 0, 3, 1, 2));
    assert(cos_t(3) == qc(1, -1, 0, 0, 2) && sin_t(3) == qc(0, 0, 1, 1, 1));
}

#[verifier::spinoff_prover]
pub(crate) proof fn rot_kdel_1_4()
    ensures
        rot36(kite_delta(1), 4).x == qc(-80, -16, 0, 0, 7),
        rot36(kite_delta(1), 4).y == qc(0, 0, -64, 0, 7),
{
    lemma2_to64();
    assert(qc(0, 1, 0, 0, 2).times(qc(-1, -1, 0, 0, 2)) == qc(-40, -8, 0, 0, 7));
    assert(qc(0, 0, 3, 1, 2).times(qc(0, 0, 1, 0, 0)) == qc(10, 2, 0, 0, 5));
    assert(qc(-40, -8, 0, 0, 7).minus(qc(10, 2, 0, 0, 5)) == qc(-80, -16, 0, 0, 7));
    assert(qc(0, 1, 0, 0, 2).times(qc(0, 0, 1, 0, 0)) == qc(0, 0, 0, 8, 5));
    assert(qc(0, 0, 3, 1, 2).times(qc(-1, -1, 0, 0, 2)) == qc(0, 0, -64, -32, 7));
    assert(qc(0, 0, 0, 8, 5).plus(qc(0, 0, -64, -32, 7)) == qc(0, 0, -64, 0, 7));
    assert(kite_delta(1).x == qc(0, 1, 0, 0, 2) && kite_delta(1).y == qc(0, 0, 3, 1, 2));
    assert(cos_t(4) == qc(-1, -1, 0, 0, 2) && sin_t(4) == qc(0, 0, 1, 0, 0));
}

#[verifier::spinoff_prover]
pub(crate) proof fn rot_kdel_1_5()
    ensures
        rot36(kite_delta(1), 5).x == qc(0, -8, 0, 0, 5),
        rot36(kite_delta(1), 5).y == qc(0, 0, -24, -8, 5),
{
    lemma2_to64();
    assert(qc(0, 1, 0, 0, 2).times(qc(-1, 0, 0, 0, 0)) == qc(0, -8, 0, 0, 5));
    assert(qc(0, 0, 3, 1, 2).times(qc(0, 0, 0, 0, 0)) == qc(0, 0, 0, 0, 5));
    assert(qc(0, -8, 0, 0, 5).minus(qc(0, 0, 0, 0, 5)) == qc(0, -8, 0, 0, 5));
    assert(qc(0, 1, 0, 0, 2).times(qc(0, 0, 0, 0, 0)) == qc(0, 0, 0, 0, 5));
    assert(qc(0, 0, 3, 1, 2).times(qc(-1, 0, 0, 0, 0)) == qc(0, 0, -24, -8, 5));
    assert(qc(0, 0, 0, 0, 5).plus(qc(0, 0, -24, -8, 5)) == qc(0, 0, -24, -8, 5));
    assert(kite_delta(1).x == qc(0, 1, 0, 0, 2) && kite_delta(1).y == qc(0, 0, 3, 1, 2));
    assert(cos_t(5) == qc(-1, 0, 0, 0, 0) && sin_t(5) == qc(0, 0, 0, 0, 0));
}

#[verifier::spinoff_prover]
pub(crate) proof fn rot_kdel_1_6()
    ensures
        rot36(kite_delta(1), 6).x == qc(0, 0, 0, 0, 7),
        rot36(kite_delta(1), 6).y == qc(0, 0, -64, -64, 7),
{
    lemma2_to64();
    assert(qc(0, 1, 0, 0, 2).times(qc(-1, -1, 0, 0, 2)) == qc(-40, -8, 0, 0, 7));
    assert(qc(0, 0, 3, 1, 2).times(qc(0, 0, -1, 0, 0)) == qc(-10, -2, 0, 0, 5));
    assert(qc(-40, -8, 0, 0, 7).minus(qc(-10, -2, 0, 0, 5)) == qc(0, 0, 0, 0, 7));
    assert(qc(0, 1, 0, 0, 2).times(qc(0, 0, -1, 0, 0)) == qc(0, 0, 0, -8, 5));
    assert(qc(0, 0, 3, 1, 2).times(qc(-1, -1, 0, 0, 2)) == qc(0, 0, -64, -32, 7));
    assert(qc(0, 0, 0, -8, 5).plus(qc(0, 0, -64, -32, 7)) == qc(0, 0, -64, -64, 7));
    assert(kite_delta(1).x == qc(0, 1, 0, 0, 2) && kite_delta(1).y == qc(0, 0, 3, 1, 2));
    assert(cos_t(6) == qc(-1, -1, 0, 0, 2) && sin_t(6) == qc(0, 0, -1, 0, 0));
}

#[verifier::spinoff_prover]
pub(crate) proof fn rot_kdel_1_7()
    ensures
        rot36(kite_delta(1), 7).x == qc(0, 32, 0, 0, 7),
        rot36(kite_delta(1), 7).y == qc(0, 0, -96, -32, 7),
{
    lemma2_to64();
    assert(qc(0, 1, 0, 0, 2).times(qc(1, -1, 0, 0, 2)) == qc(-40, 8, 0, 0, 7));
    assert(qc(0, 0, 3, 1, 2).times(qc(0, 0, -1, -1, 1)) == qc(-20, -12, 0, 0, 6));
    assert(qc(-40, 8, 0, 0, 7).minus(qc(-20, -12, 0, 0, 6)) == qc(0, 32, 0, 0, 7));
    assert(qc(0, 1, 0, 0, 2).times(qc(0, 0, -1, -1, 1)) == qc(0, 0, -40, -8, 6));
    assert(qc(0, 0, 3, 1, 2).times(qc(1, -1, 0, 0, 2)) == qc(0, 0, -16, -16, 7));
    assert(qc(0, 0, -40, -8, 6).plus(qc(0, 0, -16, -16, 7)) == qc(0, 0, -96, -32, 7));
    assert(kite_delta(1).x == qc(0, 1, 0, 0, 2) && kite_delta(1).y == qc(0, 0, 3, 1, 2));
    assert(cos_t(7) == qc(1, -1, 0, 0, 2) && sin_t(7) == qc(0, 0, -1, -1, 1));
}

#[verifier::spinoff_prover]
pub(crate) proof fn rot_kdel_1_8()
    ensures
        rot36(kite_delta(1), 8).x == qc(80, 16, 0, 0, 7),
        rot36(kite_delta(1), 8).y == qc(0, 0, -64, 0, 7),
{
    lemma2_to64();
    assert(qc(0, 1, 0, 0, 2).times(qc(-1, 1, 0, 0, 2)) == qc(40, -8, 0, 0, 7));
    assert(qc(0, 0, 3, 1, 2).times(qc(0, 0, -1, -1, 1)) == qc(-20, -12, 0, 0, 6));
    assert(qc(40, -8, 0, 0, 7).minus(qc(-20, -12, 0, 0, 6)) == qc(80, 16, 0, 0, 7));
    assert(qc(0, 1, 0, 0, 2).times(qc(0, 0, -1, -1, 1)) == qc(0, 0, -40, -8, 6));
    assert(qc(0, 0, 3, 1, 2).times(qc(-1, 1, 0, 0, 2)) == qc(0, 0, 16, 16, 7));
    assert(qc(0, 0, -40, -8, 6).plus(qc(0, 0, 16, 16, 7)) == qc(0, 0, -64, 0, 7));
    assert(kite_delta(1).x == qc(0, 1, 0, 0, 2) && kite_delta(1).y == qc(0, 0, 3, 1, 2));
    assert(cos_t(8) == qc(-1, 1, 0, 0, 2) && sin_t(8) == qc(0, 0, -1, -1, 1));
}

#[verifier::spinoff_prover]
pub(crate) proof fn rot_kdel_1_9()
    ensures
        rot36(kite_delta(1), 9).x == qc(80, 16, 0, 0, 7),
        rot36(kite_delta(1), 9).y == qc(0, 0, 64, 0, 7),
{
    lemma2_to64();
    assert(qc(0, 1, 0, 0, 2).times(qc(1, 1, 0, 0, 2)) == qc(40, 8, 0, 0, 7));
    assert(qc(0, 0, 3, 1, 2).times(qc(0, 0, -1, 0, 0)) == qc(-10, -2, 0, 0, 5));
    assert(qc(40, 8, 0, 0, 7).minus(qc(-10, -2, 0, 0, 5)) == qc(80, 16, 0, 0, 7));
    assert(qc(0, 1, 0, 0, 2).times(qc(0, 0, -1, 0, 0)) == qc(0, 0, 0, -8, 5));
    assert(qc(0, 0, 3, 1, 2).times(qc(1, 1, 0, 0, 2)) == qc(0, 0, 64, 32, 7));
    assert(qc(0, 0, 0, -8, 5).plus(qc(0, 0, 64, 32, 7)) == qc(0, 0, 64, 0, 7));
    assert(kite_delta(1).x == qc(0, 1, 0, 0, 2) && kite_delta(1).y == qc(0, 0, 3, 1, 2));
    assert(cos_t(9) == qc(1, 1, 0, 0, 2) && sin_t(9) == qc(0, 0, -1, 0, 0));
}

#[verifier::spinoff_prover]
pub(crate) proof fn rot_kdel_2_0()
    ensures
        rot36(kite_delta(2), 0).x == qc(-24, 0, 0, 0, 5),
        rot36(kite_delta(2), 0).y == qc(0, 0, 24, 8, 5),
{
    lemma2_to64();
    assert(qc(-3, 0, 0, 0, 2).times(qc(1, 0, 0, 0, 0)) == qc(-24, 0, 0, 0, 5));
    assert(qc(0, 0, 3, 1, 2).times(qc(0, 0, 0, 0, 0)) == qc(0, 0, 0, 0, 5));
    assert(qc(-24, 0, 0, 0, 5).minus(qc(0, 0, 0, 0, 5)) == qc(-24, 0, 0, 0, 5));
    assert(qc(-3, 0, 0, 0, 2).times(qc(0, 0, 0, 0, 0)) == qc(0, 0, 0, 0, 5));
    assert(qc(0, 0, 3, 1, 2).times(qc(1, 0, 0, 0, 0)) == qc(0, 0, 24, 8, 5));
    assert(qc(0, 0, 0, 0, 5).plus(qc(0, 0, 24, 8, 5)) == qc(0, 0, 24, 8, 5));
    assert(kite_delta(2).x == qc(-3, 0, 0, 0, 2) && kite_delta(2).y == qc(0, 0, 3, 1, 2));
    assert(cos_t(0) == qc(1, 0, 0, 0, 0) && sin_t(0) == qc(0, 0, 0, 0, 0));
}

#[verifier::spinoff_prover]
pub(crate) proof fn rot_kdel_2_1()
    ensures
        rot36(kite_delta(2), 1).x == qc(-64, -32, 0, 0, 7),
        rot36(kite_delta(2), 1).y == qc(0, 0, -32, 32, 7),
{
    lemma2_to64();
    assert(qc(-3, 0, 0, 0, 2).times(qc(1, 1, 0, 0, 2)) == qc(-24, -24, 0, 0, 7));
    assert(qc(0, 0, 3, 1, 2).times(qc(0, 0, 1, 0, 0)) == qc(10, 2, 0, 0, 5));
    assert(qc(-24, -24, 0, 0, 7).minus(qc(10, 2, 0, 0, 5)) == qc(-64, -32, 0, 0, 7));
    assert(qc(-3, 0, 0, 0, 2).times(qc(0, 0, 1, 0, 0)) == qc(0, 0, -24, 0, 5));
    assert(qc(0, 0, 3, 1, 2).times(qc(1, 1, 0, 0, 2)) == qc(0, 0, 64, 32, 7));
    assert(qc(0, 0, -24, 0, 5).plus(qc(0, 0, 64, 32, 7)) == qc(0, 0, -32, 32, 7));
    assert(kite_delta(2).x == qc(-3, 0, 0, 0, 2) && kite_delta(2).y == qc(0, 0, 3, 1, 2));
    assert(cos_t(1) == qc(1, 1, 0, 0, 2) && sin_t(1) == qc(0, 0, 1, 0, 0));
}

#[verifier::spinoff_prover]
pub(crate) proof fn rot_kdel_2_2()
    ensures
        rot36(kite_delta(2), 2).x == qc(-16, -48, 0, 0, 7),
        rot36(kite_delta(2), 2).y == qc(0, 0, -32, -32, 7),
{
    lemma2_to64();
    assert(qc(-3, 0, 0, 0, 2).times(qc(-1, 1, 0, 0, 2)) == qc(24, -24, 0, 0, 7));
    assert(qc(0, 0, 3, 1, 2).times(qc(0, 0, 1, 1, 1)) == qc(20, 12, 0, 0, 6));
    assert(qc(24, -24, 0, 0, 7).minus(qc(20, 12, 0, 0, 6)) == qc(-16, -48, 0, 0, 7));
    assert(qc(-3, 0, 0, 0, 2).times(qc(0, 0, 1, 1, 1)) == qc(0, 0, -24, -24, 6));
    assert(qc(0, 0, 3, 1, 2).times(qc(-1, 1, 0, 0, 2)) == qc(0, 0, 16, 16, 7));
    assert(qc(0, 0, -24, -24, 6).plus(qc(0, 0, 16, 16, 7)) == qc(0, 0, -32, -32, 7));
    assert(kite_delta(2).x == qc(-3, 0, 0, 0, 2) && kite_delta(2).y == qc(0, 0, 3, 1, 2));
    assert(cos_t(2) == qc(-1, 1, 0, 0, 2) && sin_t(2) == qc(0, 0, 1, 1, 1));
}

#[verifier::spinoff_prover]
pub(crate) proof fn rot_kdel_2_3()
    ensures
        rot36(kite_delta(2), 3).x == qc(-64, 0, 0, 0, 7),
        rot36(kite_delta(2), 3).y == qc(0, 0, -64, -64, 7),
{
    lemma2_to64();
    assert(qc(-3, 0, 0, 0, 2).times(qc(1, -1, 0, 0, 2)) == qc(-24, 24, 0, 0, 7));
    assert(qc(0, 0, 3, 1, 2).times(qc(0, 0, 1, 1, 1)) == qc(20, 12, 0, 0, 6));
    assert(qc(-24, 24, 0, 0, 7).minus(qc(20, 12, 0, 0, 6)) == qc(-64, 0, 0, 0, 7));
    assert(qc(-3, 0, 0, 0, 2).times(qc(0, 0, 1, 1, 1)) == qc(0, 0, -24, -24, 6));
    assert(qc(0, 0, 3, 1, 2).times(qc(1, -1, 0, 0, 2)) == qc(0, 0, -16, -16, 7));
    assert(qc(0, 0, -24, -24, 6).plus(qc(0, 0, -16, -16, 7)) == qc(0, 0, -64, -64, 7));
    assert(kite_delta(2).x == qc(-3, 0, 0, 0, 2) && kite_delta(2).y == qc(0, 0, 3, 1, 2));
    assert(cos_t(3) == qc(1, -1, 0, 0, 2) && sin_t(3) == qc(0, 0, 1, 1, 1));
}

#[verifier::spinoff_prover]
pub(crate) proof fn rot_kdel_2_4()
    ensures
        rot36(kite_delta(2), 4).x == qc(-16, 16, 0, 0, 7),
        rot36(kite_delta(2), 4).y == qc(0, 0, -160, -32, 7),
{
    lemma2_to64();
    assert(qc(-3, 0, 0, 0, 2).times(qc(-1, -1, 0, 0, 2)) == qc(24, 24, 0, 0, 7));
    assert(qc(0, 0, 3, 1, 2).times(qc(0, 0, 1, 0, 0)) == qc(10, 2, 0, 0, 5));
    assert(qc(24, 24, 0, 0, 7).minus(qc(10, 2, 0, 0, 5)) == qc(-16, 16, 0, 0, 7));
    assert(qc(-3, 0, 0, 0, 2).times(qc(0, 0, 1, 0, 0)) == qc(0, 0, -24, 0, 5));
    assert(qc(0, 0, 3, 1, 2).times(qc(-1, -1, 0, 0, 2)) == qc(0, 0, -64, -32, 7));
    assert(qc(0, 0, -24, 0, 5).plus(qc(0, 0, -64, -32, 7)) == qc(0, 0, -160, -32, 7));
    assert(kite_delta(2).x == qc(-3, 0, 0, 0, 2) && kite_delta(2).y == qc(0, 0, 3, 1, 2));
    assert(cos_t(4) == qc(-1, -1, 0, 0, 2) && sin_t(4) == qc(0, 0, 1, 0, 0));
}

#[verifier::spinoff_prover]
pub(crate) proof fn rot_kdel_2_5()
    ensures
        rot36(kite_delta(2), 5).x == qc(24, 0, 0, 0, 5),
        rot36(kite_delta(2), 5).y == qc(0, 0, -24, -8, 5),
{
    lemma2_to64();
    assert(qc(-3, 0, 0, 0, 2).times(qc(-1, 0, 0, 0, 0)) == qc(24, 0, 0, 0, 5));
    assert(qc(0, 0, 3, 1, 2).times(qc(0, 0, 0, 0, 0)) == qc(0, 0, 0, 0, 5));
    assert(qc(24, 0, 0, 0, 5).minus(qc(0, 0, 0, 0, 5)) == qc(24, 0, 0, 0, 5));
    assert(qc(-3, 0, 0, 0, 2).times(qc(0, 0, 0, 0, 0)) == qc(0, 0, 0, 0, 5));
    assert(qc(0, 0, 3, 1, 2).times(qc(-1, 0, 0, 0, 0)) == qc(0, 0, -24, -8, 5));
    assert(qc(0, 0, 0, 0, 5).plus(qc(0, 0, -24, -8, 5)) == qc(0, 0, -24, -8, 5));
    assert(kite_delta(2).x == qc(-3, 0, 0, 0, 2) && kite_delta(2).y == qc(0, 0, 3, 1, 2));
    assert(cos_t(5) == qc(-1, 0, 0, 0, 0) && sin_t(5) == qc(0, 0, 0, 0, 0));
}

#[verifier::spinoff_prover]
pub(crate) proof fn rot_kdel_2_6()
    ensures
        rot36(kite_delta(2), 6).x == qc(64, 32, 0, 0, 7),
        rot36(kite_delta(2), 6).y == qc(0, 0, 32, -32, 7),
{
    lemma2_to64();
    assert(qc(-3, 0, 0, 0, 2).times(qc(-1, -1, 0, 0, 2)) == qc(24, 24, 0, 0, 7));
    assert(qc(0, 0, 3, 1, 2).times(qc(0, 0, -1, 0, 0)) == qc(-10, -2, 0, 0, 5));
    assert(qc(24, 24, 0, 0, 7).minus(qc(-10, -2, 0, 0, 5)) == qc(64, 32, 0, 0, 7));
    assert(qc(-3, 0, 0, 0, 2).times(qc(0, 0, -1, 0, 0)) == qc(0, 0, 24, 0, 5));
    assert(qc(0, 0, 3, 1, 2).times(qc(-1, -1, 0, 0, 2)) == qc(0, 0, -64, -32, 7));
    assert(qc(0, 0, 24, 0, 5).plus(qc(0, 0, -64, -32, 7)) == qc(0, 0, 32, -32, 7));
    assert(kite_delta(2).x == qc(-3, 0, 0, 0, 2) && kite_delta(2).y == qc(0, 0, 3, 1, 2));
    assert(cos_t(6) == qc(-1, -1, 0, 0, 2) && sin_t(6) == qc(0, 0, -1, 0, 0));
}

#[verifier::spinoff_prover]
pub(crate) proof fn rot_kdel_2_7()
    ensures
        rot36(kite_delta(2), 7).x == qc(16, 48, 0, 0, 7),
        rot36(kite_delta(2), 7).y == qc(0, 0, 32, 32, 7),
{
    lemma2_to64();
    assert(qc(-3, 0, 0, 0, 2).times(qc(1, -1, 0, 0, 2)) == qc(-24, 24, 0, 0, 7));
    assert(qc(0, 0, 3, 1, 2).times(qc(0, 0, -1, -1, 1)) == qc(-20, -12, 0, 0, 6));
    assert(qc(-24, 24, 0, 0, 7).minus(qc(-20, -12, 0, 0, 6)) == qc(16, 48, 0, 0, 7));
    assert(qc(-3, 0, 0, 0, 2).times(qc(0, 0, -1, -1, 1)) == qc(0, 0, 24, 24, 6));
    assert(qc(0, 0, 3, 1, 2).times(qc(1, -1, 0, 0, 2)) == qc(0, 0, -16, -16, 7));
    assert(qc(0, 0, 24, 24, 6).plus(qc(0, 0, -16, -16, 7)) == qc(0, 0, 32, 32, 7));
    assert(kite_delta(2).x == qc(-3, 0, 0, 0, 2) && kite_delta(2).y == qc(0, 0, 3, 1, 2));
    assert(cos_t(7) == qc(1, -1, 0, 0, 2) && sin_t(7) == qc(0, 0, -1, -1, 1));
}

#[verifier::spinoff_prover]
pub(crate) proof fn rot_kdel_2_8()
    ensures
        rot36(kite_delta(2), 8).x == qc(64, 0, 0, 0, 7),
        rot36(kite_delta(2), 8).y == qc(0, 0, 64, 64, 7),
{
    lemma2_to64();
    assert(qc(-3, 0, 0, 0, 2).times(qc(-1, 1, 0, 0, 2)) == qc(24, -24, 0, 0, 7));
    assert(qc(0, 0, 3, 1, 2).times(qc(0, 0, -1, -1, 1)) == qc(-20, -12, 0, 0, 6));
    assert(qc(24, -24, 0, 0, 7).minus(qc(-20, -12, 0, 0, 6)) == qc(64, 0, 0, 0, 7));
    assert(qc(-3, 0, 0, 0, 2).times(qc(0, 0, -1, -1, 1)) == qc(0, 0, 24, 24, 6));
    assert(qc(0, 0, 3, 1, 2).times(qc(-1, 1, 0, 0, 2)) == qc(0, 0, 16, 16, 7));
    assert(qc(0, 0, 24, 24, 6).plus(qc(0, 0, 16, 16, 7)) == qc(0, 0, 64, 64, 7));
    assert(kite_delta(2).x == qc(-3, 0, 0, 0, 2) && kite_delta(2).y == qc(0, 0, 3, 1, 2));
    assert(cos_t(8) == qc(-1, 1, 0, 0, 2) && sin_t(8) == qc(0, 0, -1, -1, 1));
}

#[verifier::spinoff_prover]
pub(crate) proof fn rot_kdel_2_9()
    ensures
        rot36(kite_delta(2), 9).x == qc(16, -16, 0, 0, 7),
        rot36(kite_delta(2), 9).y == qc(0, 0, 160, 32, 7),
{
    lemma2_to64();
    assert(qc(-3, 0, 0, 0, 2).times(qc(1, 1, 0, 0, 2)) == qc(-24, -24, 0, 0, 7));
    assert(qc(0, 0, 3, 1, 2).times(qc(0, 0, -1, 0, 0)) == qc(-10, -2, 0, 0, 5));
    assert(qc(-24, -24, 0, 0, 7).minus(qc(-10, -2, 0, 0, 5)) == qc(16, -16, 0, 0, 7));
    assert(qc(-3, 0, 0, 0, 2).times(qc(0, 0, -1, 0, 0)) == qc(0, 0, 24, 0, 5));
    assert(qc(0, 0, 3, 1, 2).times(qc(1, 1, 0, 0, 2)) == qc(0, 0, 64, 32, 7));
    assert(qc(0, 0, 24, 0, 5).plus(qc(0, 0, 64, 32, 7)) == qc(0, 0, 160, 32, 7));
    assert(kite_delta(2).x == qc(-3, 0, 0, 0, 2) && kite_delta(2).y == qc(0, 0, 3, 1, 2));
    assert(cos_t(9) == qc(1, 1, 0, 0, 2) && sin_t(9) == qc(0, 0, -1, 0, 0));
}

#[verifier::spinoff_prover]
pub(crate) proof fn rot_kdel_3_0()
    ensures
        rot36(kite_delta(3), 0).x == qc(-24, 0, 0, 0, 5),
        rot36(kite_delta(3), 0).y == qc(0, 0, -24, -8, 5),
{
    lemma2_to64();
    assert(qc(-3, 0, 0, 0, 2).times(qc(1, 0, 0, 0, 0)) == qc(-24, 0, 0, 0, 5));
    assert(qc(0, 0, -3, -1, 2).times(qc(0, 0, 0, 0, 0)) == qc(0, 0, 0, 0, 5));
    assert(qc(-24, 0, 0, 0, 5).minus(qc(0, 0, 0, 0, 5)) == qc(-24, 0, 0, 0, 5));
    assert(qc(-3, 0, 0, 0, 2).times(qc(0, 0, 0, 0, 0)) == qc(0, 0, 0, 0, 5));
    assert(qc(0, 0, -3, -1, 2).times(qc(1, 0, 0, 0, 0)) == qc(0, 0, -24, -8, 5));
    assert(qc(0, 0, 0, 0, 5).plus(qc(0, 0, -24, -8, 5)) == qc(0, 0, -24, -8, 5));
    assert(kite_delta(3).x == qc(-3, 0, 0, 0, 2) && kite_delta(3).y == qc(0, 0, -3, -1, 2));
    assert(cos_t(0) == qc(1, 0, 0, 0, 0) && sin_t(0) == qc(0, 0, 0, 0, 0));
}

#[verifier::spinoff_prover]
pub(crate) proof fn rot_kdel_3_1()
    ensures
        rot36(kite_delta(3), 1).x == qc(16, -16, 0, 0, 7),
        rot36(kite_delta(3), 1).y == qc(0, 0, -160, -32, 7),
{
    lemma2_to64();
    assert(qc(-3, 0, 0, 0, 2).times(qc(1, 1, 0, 0, 2)) == qc(-24, -24, 0, 0, 7));
    assert(qc(0, 0, -3, -1, 2).times(qc(0, 0, 1, 0, 0)) == qc(-10, -2, 0, 0, 5));
    assert(qc(-24, -24, 0, 0, 7).minus(qc(-10, -2, 0, 0, 5)) == qc(16, -16, 0, 0, 7));
    assert(qc(-3, 0, 0, 0, 2).times(qc(0, 0, 1, 0, 0)) == qc(0, 0, -24, 0, 5));
    assert(qc(0, 0, -3, -1, 2).times(qc(1, 1, 0, 0, 2)) == qc(0, 0, -64, -32, 7));
    assert(qc(0, 0, -24, 0, 5).plus(qc(0, 0, -64, -32, 7)) == qc(0, 0, -160, -32, 7));
    assert(kite_delta(3).x == qc(-3, 0, 0, 0, 2) && kite_delta(3).y == qc(0, 0, -3, -1, 2));
    assert(cos_t(1) == qc(1, 1, 0, 0, 2) && sin_t(1) == qc(0, 0, 1, 0, 0));
}

#[verifier::spinoff_prover]
pub(crate) proof fn rot_kdel_3_2()
    ensures
        rot36(kite_delta(3), 2).x == qc(64, 0, 0, 0, 7),
        rot36(kite_delta(3), 2).y == qc(0, 0, -64, -64, 7),
{
    lemma2_to64();
    assert(qc(-3, 0, 0, 0, 2).times(qc(-1, 1, 0, 0, 2)) == qc(24, -24, 0, 0, 7));
    assert(qc(0, 0, -3, -1, 2).times(qc(0, 0, 1, 1, 1)) == qc(-20, -12, 0, 0, 6));
    assert(qc(24, -24, 0, 0, 7).minus(qc(-20, -12, 0, 0, 6)) == qc(64, 0, 0, 0, 7));
    assert(qc(-3, 0, 0, 0, 2).times(qc(0, 0, 1, 1, 1)) == qc(0, 0, -24, -24, 6));
    assert(qc(0, 0, -3, -1, 2).times(qc(-1, 1, 0, 0, 2)) == qc(0, 0, -16, -16, 7));
    assert(qc(0, 0, -24, -24, 6).plus(qc(0, 0, -16, -16, 7)) == qc(0, 0, -64, -64, 7));
    assert(kite_delta(3).x == qc(-3, 0, 0, 0, 2) && kite_delta(3).y == qc(0, 0, -3, -1, 2));
    assert(cos_t(2) == qc(-1, 1, 0, 0, 2) && sin_t(2) == qc(0, 0, 1, 1, 1));
}

#[verifier::spinoff_prover]
pub(crate) proof fn rot_kdel_3_3()
    ensures
        rot36(kite_delta(3), 3).x == qc(16, 48, 0, 0, 7),
        rot36(kite_delta(3), 3).y == qc(0, 0, -32, -32, 7),
{
    lemma2_to64();
    assert(qc(-3, 0, 0, 0, 2).times(qc(1, -1, 0, 0, 2)) == qc(-24, 24, 0, 0, 7));
    assert(qc(0, 0, -3, -1, 2).times(qc(0, 0, 1, 1, 1)) == qc(-20, -12, 0, 0, 6));
    assert(qc(-24, 24, 0, 0, 7).minus(qc(-20, -12, 0, 0, 6)) == qc(16, 48, 0, 0, 7));
    assert(qc(-3, 0, 0, 0, 2).times(qc(0, 0, 1, 1, 1)) == qc(0, 0, -24, -24, 6));
    assert(qc(0, 0, -3, -1, 2).times(qc(1, -1, 0, 0, 2)) == qc(0, 0, 16, 16, 7));
    assert(qc(0, 0, -24, -24, 6).plus(qc(0, 0, 16, 16, 7)) == qc(0, 0, -32, -32, 7));
    assert(kite_delta(3).x == qc(-3, 0, 0, 0, 2) && kite_delta(3).y == qc(0, 0, -3, -1, 2));
    assert(cos_t(3) == qc(1, -1, 0, 0, 2) && sin_t(3) == qc(0, 0, 1, 1, 1));
}

#[verifier::spinoff_prover]
pub(crate) proof fn rot_kdel_3_4()
    ensures
        rot36(kite_delta(3), 4).x == qc(64, 32, 0, 0, 7),
        rot36(kite_delta(3), 4).y == qc(0, 0, -32, 32, 7),
{
    lemma2_to64();
    assert(qc(-3, 0, 0, 0, 2).times(qc(-1, -1, 0, 0, 2)) == qc(24, 24, 0, 0, 7));
    assert(qc(0, 0, -3, -1, 2).times(qc(0, 0, 1, 0, 0)) == qc(-10, -2, 0, 0, 5));
    assert(qc(24, 24, 0, 0, 7).minus(qc(-10, -2, 0, 0, 5)) == qc(64, 32, 0, 0, 7));
    assert(qc(-3, 0, 0, 0, 2).times(qc(0, 0, 1, 0, 0)) == qc(0, 0, -24, 0, 5));
    assert(qc(0, 0, -3, -1, 2).times(qc(-1, -1, 0, 0, 2)) == qc(0, 0, 64, 32, 7));
    assert(qc(0, 0, -24, 0, 5).plus(qc(0, 0, 64, 32, 7)) == qc(0, 0, -32, 32, 7));
    assert(kite_delta(3).x == qc(-3, 0, 0, 0, 2) && kite_delta(3).y == qc(0, 0, -3, -1, 2));
    assert(cos_t(4) == qc(-1, -1, 0, 0, 2) && sin_t(4) == qc(0, 0, 1, 0, 0));
}

#[verifier::spinoff_prover]
pub(crate) proof fn rot_kdel_3_5()
    ensures
        rot36(kite_delta(3), 5).x == qc(24, 0, 0, 0, 5),
        rot36(kite_delta(3), 5).y == qc(0, 0, 24, 8, 5),
{
    lemma2_to64();
    assert(qc(-3, 0, 0, 0, 2).times(qc(-1, 0, 0, 0, 0)) == qc(24, 0, 0, 0, 5));
    assert(qc(0, 0, -3, -1, 2).times(qc(0, 0, 0, 0, 0)) == qc(0, 0, 0, 0, 5));
    assert(qc(24, 0, 0, 0, 5).minus(qc(0, 0, 0, 0, 5)) == qc(24, 0, 0, 0, 5));
    assert(qc(-3, 0, 0, 0, 2).times(qc(0, 0, 0, 0, 0)) == qc(0, 0, 0, 0, 5));
    assert(qc(0, 0, -3, -1, 2).times(qc(-1, 0, 0, 0, 0)) == qc(0, 0, 24, 8, 5));
    assert(qc(0, 0, 0, 0, 5).plus(qc(0, 0, 24, 8, 5)) == qc(0, 0, 24, 8, 5));
    assert(kite_delta(3).x == qc(-3, 0, 0, 0, 2) && kite_delta(3).y == qc(0, 0, -3, -1, 2));
    assert(cos_t(5) == qc(-1, 0, 0, 0, 0) && sin_t(5) == qc(0, 0, 0, 0, 0));
}

#[verifier::spinoff_prover]
pub(crate) proof fn rot_kdel_3_6()
    ensures
        rot36(kite_delta(3), 6).x == qc(-16, 16, 0, 0, 7),
        rot36(kite_delta(3), 6).y == qc(0, 0, 160, 32, 7),
{
    lemma2_to64();
    assert(qc(-3, 0, 0, 0, 2).times(qc(-1, -1, 0, 0, 2)) == qc(24, 24, 0, 0, 7));
    assert(qc(0, 0, -3, -1, 2).times(qc(0, 0, -1, 0, 0)) == qc(10, 2, 0, 0, 5));
    assert(qc(24, 24, 0, 0, 7).minus(qc(10, 2, 0, 0, 5)) == qc(-16, 16, 0, 0, 7));
    assert(qc(-3, 0, 0, 0, 2).times(qc(0, 0, -1, 0, 0)) == qc(0, 0, 24, 0, 5));
    assert(qc(0, 0, -3, -1, 2).times(qc(-1, -1, 0, 0, 2)) == qc(0, 0, 64, 32, 7));
    assert(qc(0, 0, 24, 0, 5).plus(qc(0, 0, 64, 32, 7)) == qc(0, 0, 160, 32, 7));
    assert(kite_delta(3).x == qc(-3, 0, 0, 0, 2) && kite_delta(3).y == qc(0, 0, -3, -1, 2));
    assert(cos_t(6) == qc(-1, -1, 0, 0, 2) && sin_t(6) == qc(0, 0, -1, 0, 0));
}

#[verifier::spinoff_prover]
pub(crate) proof fn rot_kdel_3_7()
    ensures
        rot36(kite_delta(3), 7).x == qc(-64, 0, 0, 0, 7),
        rot36(kite_delta(3), 7).y == qc(0, 0, 64, 64, 7),
{
    lemma2_to64();
    assert(qc(-3, 0, 0, 0, 2).times(qc(1, -1, 0, 0, 2)) == qc(-24, 24, 0, 0, 7));
    assert(qc(0, 0, -3, -1, 2).times(qc(0, 0, -1, -1, 1)) == qc(20, 12, 0, 0, 6));
    assert(qc(-24, 24, 0, 0, 7).minus(qc(20, 12, 0, 0, 6)) == qc(-64, 0, 0, 0, 7));
    assert(qc(-3, 0, 0, 0, 2).times(qc(0, 0, -1, -1, 1)) == qc(0, 0, 24, 24, 6));
    assert(qc(0, 0, -3, -1, 2).times(qc(1, -1, 0, 0, 2)) == qc(0, 0, 16, 16, 7));
    assert(qc(0, 0, 24, 24, 6).plus(qc(0, 0, 16, 16, 7)) == qc(0, 0, 64, 64, 7));
    assert(kite_delta(3).x == qc(-3, 0, 0, 0, 2) && kite_delta(3).y == qc(0, 0, -3, -1, 2));
    assert(cos_t(7) == qc(1, -1, 0, 0, 2) && sin_t(7) == qc(0, 0, -1, -1, 1));
}

#[verifier::spinoff_prover]
pub(crate) proof fn rot_kdel_3_8()
    ensures
        rot36(kite_delta(3), 8).x == qc(-16, -48, 0, 0, 7),
        rot36(kite_delta(3), 8).y == qc(0, 0, 32, 32, 7),
{
    lemma2_to64();
    assert(qc(-3, 0, 0, 0, 2).times(qc(-1, 1, 0, 0, 2)) == qc(24, -24, 0, 0, 7));
    assert(qc(0, 0, -3, -1, 2).times(qc(0, 0, -1, -1, 1)) == qc(20, 12, 0, 0, 6));
    assert(qc(24, -24, 0, 0, 7).minus(qc(20, 12, 0, 0, 6)) == qc(-16, -48, 0, 0, 7));
    assert(qc(-3, 0, 0, 0, 2).times(qc(0, 0, -1, -1, 1)) == qc(0, 0, 24, 24, 6));
    assert(qc(0, 0, -3, -1, 2).times(qc(-1, 1, 0, 0, 2)) == qc(0, 0, -16, -16, 7));
    assert(qc(0, 0, 24, 24, 6).plus(qc(0, 0, -16, -16, 7)) == qc(0, 0, 32, 32, 7));
    assert(kite_delta(3).x == qc(-3, 0, 0, 0, 2) && kite_delta(3).y == qc(0, 0, -3, -1, 2));
    assert(cos_t(8) == qc(-1, 1, 0, 0, 2) && sin_t(8) == qc(0, 0, -1, -1, 1));
}

#[verifier::spinoff_prover]
pub(crate) proof fn rot_kdel_3_9()
    ensures
        rot36(kite_delta(3), 9).x == qc(-64, -32, 0, 0, 7),
        rot36(kite_delta(3), 9).y == qc(0, 0, 32, -32, 7),
{
    lemma2_to64();
    assert(qc(-3, 0, 0, 0, 2).times(qc(1, 1, 0, 0, 2)) == qc(-24, -24, 0, 0, 7));
    assert(qc(0, 0, -3, -1, 2).times(qc(0, 0, -1, 0, 0)) == qc(10, 2, 0, 0, 5));
    assert(qc(-24, -24, 0, 0, 7).minus(qc(10, 2, 0, 0, 5)) == qc(-64, -32, 0, 0, 7));
    assert(qc(-3, 0, 0, 0, 2).times(qc(0, 0, -1, 0, 0)) == qc(0, 0, 24, 0, 5));
    assert(qc(0, 0, -3, -1, 2).times(qc(1, 1, 0, 0, 2)) == qc(0, 0, -64, -32, 7));
    assert(qc(0, 0, 24, 0, 5).plus(qc(0, 0, -64, -32, 7)) == qc(0, 0, 32, -32, 7));
    assert(kite_delta(3).x == qc(-3, 0, 0, 0, 2) && kite_delta(3).y == qc(0, 0, -3, -1, 2));
    assert(cos_t(9) == qc(1, 1, 0, 0, 2) && sin_t(9) == qc(0, 0, -1, 0, 0));
}

#[verifier::spinoff_prover]
pub(crate) proof fn rot_kdel_4_0()
    ensures
        rot36(kite_delta(4), 0).x == qc(0, 8, 0, 0, 5),
        rot36(kite_delta(4), 0).y == qc(0, 0, -24, -8, 5),
{
    lemma2_to64();
    assert(qc(0, 1, 0, 0, 2).times(qc(1, 0, 0, 0, 0)) == qc(0, 8, 0, 0, 5));
    assert(qc(0, 0, -3, -1, 2).times(qc(0, 0, 0, 0, 0)) == qc(0, 0, 0, 0, 5));
    assert(qc(0, 8, 0, 0, 5).minus(qc(0, 0, 0, 0, 5)) == qc(0, 8, 0, 0, 5));
    assert(qc(0, 1, 0, 0, 2).times(qc(0, 0, 0, 0, 0)) == qc(0, 0, 0, 0, 5));
    assert(qc(0, 0, -3, -1, 2).times(qc(1, 0, 0, 0, 0)) == qc(0, 0, -24, -8, 5));
    assert(qc(0, 0, 0, 0, 5).plus(qc(0, 0, -24, -8, 5)) == qc(0, 0, -24, -8, 5));
    assert(kite_delta(4).x == qc(0, 1, 0, 0, 2) && kite_delta(4).y == qc(0, 0, -3, -1, 2));
    assert(cos_t(0) == qc(1, 0, 0, 0, 0) && sin_t(0) == qc(0, 0, 0, 0, 0));
}

#[verifier::spinoff_prover]
pub(crate) proof fn rot_kdel_4_1()
    ensures
        rot36(kite_delta(4), 1).x == qc(80, 16, 0, 0, 7),
        rot36(kite_delta(4), 1).y == qc(0, 0, -64, 0, 7),
{
    lemma2_to64();
    assert(qc(0, 1, 0, 0, 2).times(qc(1, 1, 0, 0, 2)) == qc(40, 8, 0, 0, 7));
    assert(qc(0, 0, -3, -1, 2).times(qc(0, 0, 1, 0, 0)) == qc(-10, -2, 0, 0, 5));
    assert(qc(40, 8, 0, 0, 7).minus(qc(-10, -2, 0, 0, 5)) == qc(80, 16, 0, 0, 7));
    assert(qc(0, 1, 0, 0, 2).times(qc(0, 0, 1, 0, 0)) == qc(0, 0, 0, 8, 5));
    assert(qc(0, 0, -3, -1, 2).times(qc(1, 1, 0, 0, 2)) == qc(0, 0, -64, -32, 7));
    assert(qc(0, 0, 0, 8, 5).plus(qc(0, 0, -64, -32, 7)) == qc(0, 0, -64, 0, 7));
    assert(kite_delta(4).x == qc(0, 1, 0, 0, 2) && kite_delta(4).y == qc(0, 0, -3, -1, 2));
    assert(cos_t(1) == qc(1, 1, 0, 0, 2) && sin_t(1) == qc(0, 0, 1, 0, 0));
}

#[verifier::spinoff_prover]
pub(crate) proof fn rot_kdel_4_2()
    ensures
        rot36(kite_delta(4), 2).x == qc(80, 16, 0, 0, 7),
        rot36(kite_delta(4), 2).y == qc(0, 0, 64, 0, 7),
{
    lemma2_to64();
    assert(qc(0, 1, 0, 0, 2).times(qc(-1, 1, 0, 0, 2)) == qc(40, -8, 0, 0, 7));
    assert(qc(0, 0, -3, -1, 2).times(qc(0, 0, 1, 1, 1)) == qc(-20, -12, 0, 0, 6));
    assert(qc(40, -8, 0, 0, 7).minus(qc(-20, -12, 0, 0, 6)) == qc(80, 16, 0, 0, 7));
    assert(qc(0, 1, 0, 0, 2).times(qc(0, 0, 1, 1, 1)) == qc(0, 0, 40, 8, 6));
    assert(qc(0, 0, -3, -1, 2).times(qc(-1, 1, 0, 0, 2)) == qc(0, 0, -16, -16, 7));
    assert(qc(0, 0, 40, 8, 6).plus(qc(0, 0, -16, -16, 7)) == qc(0, 0, 64, 0, 7));
    assert(kite_delta(4).x == qc(0, 1, 0, 0, 2) && kite_delta(4).y == qc(0, 0, -3, -1, 2));
    assert(cos_t(2) == qc(-1, 1, 0, 0, 2) && sin_t(2) == qc(0, 0, 1, 1, 1));
}

#[verifier::spinoff_prover]
pub(crate) proof fn rot_kdel_4_3()
    ensures
        rot36(kite_delta(4), 3).x == qc(0, 32, 0, 0, 7),
        rot36(kite_delta(4), 3).y == qc(0, 0, 96, 32, 7),
{
    lemma2_to64();
    assert(qc(0, 1, 0, 0, 2).times(qc(1, -1, 0, 0, 2)) == qc(-40, 8, 0, 0, 7));
    assert(qc(0, 0, -3, -1, 2).times(qc(0, 0, 1, 1, 1)) == qc(-20, -12, 0, 0, 6));
    assert(qc(-40, 8, 0, 0, 7).minus(qc(-20, -12, 0, 0, 6)) == qc(0, 32, 0, 0, 7));
    assert(qc(0, 1, 0, 0, 2).times(qc(0, 0, 1, 1, 1)) == qc(0, 0, 40, 8, 6));
    assert(qc(0, 0, -3, -1, 2).times(qc(1, -1, 0, 0, 2)) == qc(0, 0, 16, 16, 7));
    assert(qc(0, 0, 40, 8, 6).plus(qc(0, 0, 16, 16, 7)) == qc(0, 0, 96, 32, 7));
    assert(kite_delta(4).x == qc(0, 1, 0, 0, 2) && kite_delta(4).y == qc(0, 0, -3, -1, 2));
    assert(cos_t(3) == qc(1, -1, 0, 0, 2) && sin_t(3) == qc(0, 0, 1, 1, 1));
}

#[verifier::spinoff_prover]
pub(crate) proof fn rot_kdel_4_4()
    ensures
        rot36(kite_delta(4), 4).x == qc(0, 0, 0, 0, 7),
        rot36(kite_delta(4), 4).y == qc(0, 0, 64, 64, 7),
{
    lemma2_to64();
    assert(qc(0, 1, 0, 0, 2).times(qc(-1, -1, 0, 0, 2)) == qc(-40, -8, 0, 0, 7));
    assert(qc(0, 0, -3, -1, 2).times(qc(0, 0, 1, 0, 0)) == qc(-10, -2, 0, 0, 5));
    assert(qc(-40, -8, 0, 0, 7).minus(qc(-10, -2, 0, 0, 5)) == qc(0, 0, 0, 0, 7));
    assert(qc(0, 1, 0, 0, 2).times(qc(0, 0, 1, 0, 0)) == qc(0, 0, 0, 8, 5));
    assert(qc(0, 0, -3, -1, 2).times(qc(-1, -1, 0, 0, 2)) == qc(0, 0, 64, 32, 7));
    assert(qc(0, 0, 0, 8, 5).plus(qc(0, 0, 64, 32, 7)) == qc(0, 0, 64, 64, 7));
    assert(kite_delta(4).x == qc(0, 1, 0, 0, 2) && kite_delta(4).y == qc(0, 0, -3, -1, 2));
    assert(cos_t(4) == qc(-1, -1, 0, 0, 2) && sin_t(4) == qc(0, 0, 1, 0, 0));
}

#[verifier::spinoff_prover]
pub(crate) proof fn rot_kdel_4_5()
    ensures
        rot36(kite_delta(4), 5).x == qc(0, -8, 0, 0, 5),
        rot36(kite_delta(4), 5).y == qc(0, 0, 24, 8, 5),
{
    lemma2_to64();
    assert(qc(0, 1, 0, 0, 2).times(qc(-1, 0, 0, 0, 0)) == qc(0, -8, 0, 0, 5));
    assert(qc(0, 0, -3, -1, 2).times(qc(0, 0, 0, 0, 0)) == qc(0, 0, 0, 0, 5));
    assert(qc(0, -8, 0, 0, 5).minus(qc(0, 0, 0, 0, 5)) == qc(0, -8, 0, 0, 5));
    assert(qc(0, 1, 0, 0, 2).times(qc(0, 0, 0, 0, 0)) == qc(0, 0, 0, 0, 5));
    assert(qc(0, 0, -3, -1, 2).times(qc(-1, 0, 0, 0, 0)) == qc(0, 0, 24, 8, 5));
    assert(qc(0, 0, 0, 0, 5).plus(qc(0, 0, 24, 8, 5)) == qc(0, 0, 24, 8, 5));
    assert(kite_delta(4).x == qc(0, 1, 0, 0, 2) && kite_delta(4).y == qc(0, 0, -3, -1, 2));
    assert(cos_t(5) == qc(-1, 0, 0, 0, 0) && sin_t(5) == qc(0, 0, 0, 0, 0));
}

#[verifier::spinoff_prover]
pub(crate) proof fn rot_kdel_4_6()
    ensures
        rot36(kite_delta(4), 6).x == qc(-80, -16, 0, 0, 7),
        rot36(kite_delta(4), 6).y == qc(0, 0, 64, 0, 7),
{
    lemma2_to64();
    assert(qc(0, 1, 0, 0, 2).times(qc(-1, -1, 0, 0, 2)) == qc(-40, -8, 0, 0, 7));
    assert(qc(0, 0, -3, -1, 2).times(qc(0, 0, -1, 0, 0)) == qc(10, 2, 0, 0, 5));
    assert(qc(-40, -8, 0, 0, 7).minus(qc(10, 2, 0, 0, 5)) == qc(-80, -16, 0, 0, 7));
    assert(qc(0, 1, 0, 0, 2).times(qc(0, 0, -1, 0, 0)) == qc(0, 0, 0, -8, 5));
    assert(qc(0, 0, -3, -1, 2).times(qc(-1, -1, 0, 0, 2)) == qc(0, 0, 64, 32, 7));
    assert(qc(0, 0, 0, -8, 5).plus(qc(0, 0, 64, 32, 7)) == qc(0, 0, 64, 0, 7));
    assert(kite_delta(4).x == qc(0, 1, 0, 0, 2) && kite_delta(4).y == qc(0, 0, -3, -1, 2));
    assert(cos_t(6) == qc(-1, -1, 0, 0, 2) && sin_t(6) == qc(0, 0, -1, 0, 0));
}

#[verifier::spinoff_prover]
pub(crate) proof fn rot_kdel_4_7()
    ensures
        rot36(kite_delta(4), 7).x == qc(-80, -16, 0, 0, 7),
        rot36(kite_delta(4), 7).y == qc(0, 0, -64, 0, 7),
{
    lemma2_to64();
    assert(qc(0, 1, 0, 0, 2).times(qc(1, -1, 0, 0, 2)) == qc(-40, 8, 0, 0, 7));
    assert(qc(0, 0, -3, -1, 2).times(qc(0, 0, -1, -1, 1)) == qc(20, 12, 0, 0, 6));
    assert(qc(-40, 8, 0, 0, 7).minus(qc(20, 12, 0, 0, 6)) == qc(-80, -16, 0, 0, 7));
    assert(qc(0, 1, 0, 0, 2).times(qc(0, 0, -1, -1, 1)) == qc(0, 0, -40, -8, 6));
    assert(qc(0, 0, -3, -1, 2).times(qc(1, -1, 0, 0, 2)) == qc(0, 0, 16, 16, 7));
    assert(qc(0, 0, -40, -8, 6).plus(qc(0, 0, 16, 16, 7)) == qc(0, 0, -64, 0, 7));
    assert(kite_delta(4).x == qc(0, 1, 0, 0, 2) && kite_delta(4).y == qc(0, 0, -3, -1, 2));
    assert(cos_t(7) == qc(1, -1, 0, 0, 2) && sin_t(7) == qc(0, 0, -1, -1, 1));
}

#[verifier::spinoff_prover]
pub(crate) proof fn rot_kdel_4_8()
    ensures
        rot36(kite_delta(4), 8).x == qc(0, -32, 0, 0, 7),
        rot36(kite_delta(4), 8).y == qc(0, 0, -96, -32, 7),
{
    lemma2_to64();
    assert(qc(0, 1, 0, 0, 2).times(qc(-1, 1, 0, 0, 2)) == qc(40, -8, 0, 0, 7));
    assert(qc(0, 0, -3, -1, 2).times(qc(0, 0, -1, -1, 1)) == qc(20, 12, 0, 0, 6));
    assert(qc(40, -8, 0, 0, 7).minus(qc(20, 12, 0, 0, 6)) == qc(0, -32, 0, 0, 7));
    assert(qc(0, 1, 0, 0, 2).times(qc(0, 0, -1, -1, 1)) == qc(0, 0, -40, -8, 6));
    assert(qc(0, 0, -3, -1, 2).times(qc(-1, 1, 0, 0, 2)) == qc(0, 0, -16, -16, 7));
    assert(qc(0, 0, -40, -8, 6).plus(qc(0, 0, -16, -16, 7)) == qc(0, 0, -96, -32, 7));
    assert(kite_delta(4).x == qc(0, 1, 0, 0, 2) && kite_delta(4).y == qc(0, 0, -3, -1, 2));
    assert(cos_t(8) == qc(-1, 1, 0, 0, 2) && sin_t(8) == qc(0, 0, -1, -1, 1));
}

#[verifier::spinoff_prover]
pub(crate) proof fn rot_kdel_4_9()
    ensures
        rot36(kite_delta(4), 9).x == qc(0, 0, 0, 0, 7),
        rot36(kite_delta(4), 9).y == qc(0, 0, -64, -64, 7),
{
    lemma2_to64();
    assert(qc(0, 1, 0, 0, 2).times(qc(1, 1, 0, 0, 2)) == qc(40, 8, 0, 0, 7));
    assert(qc(0, 0, -3, -1, 2).times(qc(0, 0, -1, 0, 0)) == qc(10, 2, 0, 0, 5));
    assert(qc(40, 8, 0, 0, 7).minus(qc(10, 2, 0, 0, 5)) == qc(0, 0, 0, 0, 7));
    assert(qc(0, 1, 0, 0, 2).times(qc(0, 0, -1, 0, 0)) == qc(0, 0, 0, -8, 5));
    assert(qc(0, 0, -3, -1, 2).times(qc(1, 1, 0, 0, 2)) == qc(0, 0, -64, -32, 7));
    assert(qc(0, 0, 0, -8, 5).plus(qc(0, 0, -64, -32, 7)) == qc(0, 0, -64, -64, 7));
    assert(kite_delta(4).x == qc(0, 1, 0, 0, 2) && kite_delta(4).y == qc(0, 0, -3, -1, 2));
    assert(cos_t(9) == qc(1, 1, 0, 0, 2) && sin_t(9) == qc(0, 0, -1, 0, 0));
}

#[verifier::spinoff_prover]
proof fn kite_dir_case_1_0()
    ensures
        kite_dir_claim(1, 0),
{
    lemma2_to64();
    assert(qeq(qc(16, 8, 0, 0, 4), qc(64, 32, 0, 0, 6)));
    assert(qeq(qc(0, 0, -24, -8, 4), qc(0, 0, -24, -8, 4)));
    assert(norm360((324 + 36 * 0) as int) / 36 == 9);
    assert(kite_len(1) == EdgeLength::LONG);
    assert(qc(8, 0, 0, 0, 4).minus(qc(-8, -8, 0, 0, 4)) == qc(16, 8, 0, 0, 4));
    assert(qc(0, 0, -24, -8, 4).minus(qc(0, 0, 0, 0, 4)) == qc(0, 0, -24, -8, 4));
    rot_kpt_0_0();
    rot_kpt_1_0();
    len_rot_long_9();
}

#[verifier::spinoff_prover]
proof fn kite_join_case_1_0()
    ensures
        kite_join_claim(1, 0),
{
    lemma2_to64();
    assert(qc(0, 8, 0, 0, 5).doubled() == qc(0, 16, 0, 0, 5));
    assert(qc(0, 0, 24, 8, 5).doubled() == qc(0, 0, 48, 16, 5));
    assert(qc(-8, -8, 0, 0, 4).plus(qc(8, 0, 0, 0, 4)) == qc(0, -8, 0, 0, 4));
    assert(qc(0, 0, 0, 0, 4).plus(qc(0, 0, -24, -8, 4)) == qc(0, 0, -24, -8, 4));
    assert(qc(0, 16, 0, 0, 5).plus(qc(0, -8, 0, 0, 4)) == qc(0, 0, 0, 0, 5));
    assert(qc(0, 0, 48, 16, 5).plus(qc(0, 0, -24, -8, 4)) == qc(0, 0, 0, 0, 5));
    rot_kpt_0_0();
    rot_kpt_1_0();
    rot_kdel_1_0();
}

#[verifier::spinoff_prover]
proof fn kite_dir_case_1_1()
    ensures
        kite_dir_claim(1, 1),
{
    lemma2_to64();
    assert(qeq(qc(96, 32, 0, 0, 6), qc(24, 8, 0, 0, 4)));
    assert(qeq(qc(0, 0, 0, 0, 6), qc(0, 0, 0, 0, 4)));
    assert(norm360((324 + 36 * 1) as int) / 36 == 0);
    assert(kite_len(1) == EdgeLength::LONG);
    assert(qc(48, 16, 0, 0, 6).minus(qc(-48, -16, 0, 0, 6)) == qc(96, 32, 0, 0, 6));
    assert(qc(0, 0, -32, -32, 6).minus(qc(0, 0, -16, -16, 5)) == qc(0, 0, 0, 0, 6));
    rot_kpt_0_1();
    rot_kpt_1_1();
    len_rot_long_0();
}

#[verifier::spinoff_prover]
proof fn kite_join_case_1_1()
    ensures
        kite_join_claim(1, 1),
{
    lemma2_to64();
    assert(qc(0, 0, 0, 0, 7).doubled() == qc(0, 0, 0, 0, 7));
    assert(qc(0, 0, 64, 64, 7).doubled() == qc(0, 0, 128, 128, 7));
    assert(qc(-48, -16, 0, 0, 6).plus(qc(48, 16, 0, 0, 6)) == qc(0, 0, 0, 0, 6));
    assert(qc(0, 0, -16, -16, 5).plus(qc(0, 0, -32, -32, 6)) == qc(0, 0, -64, -64, 6));
    assert(qc(0, 0, 0, 0, 7).plus(qc(0, 0, 0, 0, 6)) == qc(0, 0, 0, 0, 7));
    assert(qc(0, 0, 128, 128, 7).plus(qc(0, 0, -64, -64, 6)) == qc(0, 0, 0, 0, 7));
    rot_kpt_0_1();
    rot_kpt_1_1();
    rot_kdel_1_1();
}

#[verifier::spinoff_prover]
proof fn kite_dir_case_1_2()
    ensures
        kite_dir_claim(1, 2),
{
    lemma2_to64();
    assert(qeq(qc(64, 32, 0, 0, 6), qc(64, 32, 0, 0, 6)));
    assert(qeq(qc(0, 0, 96, 32, 6), qc(0, 0, 24, 8, 4)));
    assert(norm360((324 + 36 * 2) as int) / 36 == 1);
    assert(kite_len(1) == EdgeLength::LONG);
    assert(qc(32, 32, 0, 0, 6).minus(qc(-32, 0, 0, 0, 6)) == qc(64, 32, 0, 0, 6));
    assert(qc(0, 0, 0, 0, 6).minus(qc(0, 0, -48, -16, 5)) == qc(0, 0, 96, 32, 6));
    rot_kpt_0_2();
    rot_kpt_1_2();
    len_rot_long_1();
}

#[verifier::spinoff_prover]
proof fn kite_join_case_1_2()
    ensures
        kite_join_claim(1, 2),
{
    lemma2_to64();
    assert(qc(0, -32, 0, 0, 7).doubled() == qc(0, -64, 0, 0, 7));
    assert(qc(0, 0, 96, 32, 7).doubled() == qc(0, 0, 192, 64, 7));
    assert(qc(-32, 0, 0, 0, 6).plus(qc(32, 32, 0, 0, 6)) == qc(0, 32, 0, 0, 6));
    assert(qc(0, 0, -48, -16, 5).plus(qc(0, 0, 0, 0, 6)) == qc(0, 0, -96, -32, 6));
    assert(qc(0, -64, 0, 0, 7).plus(qc(0, 32, 0, 0, 6)) == qc(0, 0, 0, 0, 7));
    assert(qc(0, 0, 192, 64, 7).plus(qc(0, 0, -96, -32, 6)) == qc(0, 0, 0, 0, 7));
    rot_kpt_0_2();
    rot_kpt_1_2();
    rot_kdel_1_2();
}

#[verifier::spinoff_prover]
proof fn kite_dir_case_1_3()
    ensures
        kite_dir_claim(1, 3),
{
    lemma2_to64();
    assert(qeq(qc(16, 16, 0, 0, 6), qc(16, 16, 0, 0, 6)));
    assert(qeq(qc(0, 0, 128, 64, 6), qc(0, 0, 64, 32, 5)));
    assert(norm360((324 + 36 * 3) as int) / 36 == 2);
    assert(kite_len(1) == EdgeLength::LONG);
    assert(qc(48, 16, 0, 0, 6).minus(qc(32, 0, 0, 0, 6)) == qc(16, 16, 0, 0, 6));
    assert(qc(0, 0, 32, 32, 6).minus(qc(0, 0, -48, -16, 5)) == qc(0, 0, 128, 64, 6));
    rot_kpt_0_3();
    rot_kpt_1_3();
    len_rot_long_2();
}

#[verifier::spinoff_prover]
proof fn kite_join_case_1_3()
    ensures
        kite_join_claim(1, 3),
{
    lemma2_to64();
    assert(qc(-80, -16, 0, 0, 7).doubled() == qc(-160, -32, 0, 0, 7));
    assert(qc(0, 0, 64, 0, 7).doubled() == qc(0, 0, 128, 0, 7));
    assert(qc(32, 0, 0, 0, 6).plus(qc(48, 16, 0, 0, 6)) == qc(80, 16, 0, 0, 6));
    assert(qc(0, 0, -48, -16, 5).plus(qc(0, 0, 32, 32, 6)) == qc(0, 0, -64, 0, 6));
    assert(qc(-160, -32, 0, 0, 7).plus(qc(80, 16, 0, 0, 6)) == qc(0, 0, 0, 0, 7));
    assert(qc(0, 0, 128, 0, 7).plus(qc(0, 0, -64, 0, 6)) == qc(0, 0, 0, 0, 7));
    rot_kpt_0_3();
    rot_kpt_1_3();
    rot_kdel_1_3();
}

#[verifier::spinoff_prover]
proof fn kite_dir_case_1_4()
    ensures
        kite_dir_claim(1, 4),
{
    lemma2_to64();
    assert(qeq(qc(-16, -16, 0, 0, 6), qc(-16, -16, 0, 0, 6)));
    assert(qeq(qc(0, 0, 128, 64, 6), qc(0, 0, 64, 32, 5)));
    assert(norm360((324 + 36 * 4) as int) / 36 == 3);
    assert(kite_len(1) == EdgeLength::LONG);
    assert(qc(32, 0, 0, 0, 6).minus(qc(48, 16, 0, 0, 6)) == qc(-16, -16, 0, 0, 6));
    assert(qc(0, 0, 96, 32, 6).minus(qc(0, 0, -16, -16, 5)) == qc(0, 0, 128, 64, 6));
    rot_kpt_0_4();
    rot_kpt_1_4();
    len_rot_long_3();
}

#[verifier::spinoff_prover]
proof fn kite_join_case_1_4()
    ensures
        kite_join_claim(1, 4),
{
    lemma2_to64();
    assert(qc(-80, -16, 0, 0, 7).doubled() == qc(-160, -32, 0, 0, 7));
    assert(qc(0, 0, -64, 0, 7).doubled() == qc(0, 0, -128, 0, 7));
    assert(qc(48, 16, 0, 0, 6).plus(qc(32, 0, 0, 0, 6)) == qc(80, 16, 0, 0, 6));
    assert(qc(0, 0, -16, -16, 5).plus(qc(0, 0, 96, 32, 6)) == qc(0, 0, 64, 0, 6));
    assert(qc(-160, -32, 0, 0, 7).plus(qc(80, 16, 0, 0, 6)) == qc(0, 0, 0, 0, 7));
    assert(qc(0, 0, -128, 0, 7).plus(qc(0, 0, 64, 0, 6)) == qc(0, 0, 0, 0, 7));
    rot_kpt_0_4();
    rot_kpt_1_4();
    rot_kdel_1_4();
}

#[verifier::spinoff_prover]
proof fn kite_dir_case_1_5()
    ensures
        kite_dir_claim(1, 5),
{
    lemma2_to64();
    assert(qeq(qc(-16, -8, 0, 0, 4), qc(-64, -32, 0, 0, 6)));
    assert(qeq(qc(0, 0, 24, 8, 4), qc(0, 0, 24, 8, 4)));
    assert(norm360((324 + 36 * 5) as int) / 36 == 4);
    assert(kite_len(1) == EdgeLength::LONG);
    assert(qc(-8, 0, 0, 0, 4).minus(qc(8, 8, 0, 0, 4)) == qc(-16, -8, 0, 0, 4));
    assert(qc(0, 0, 24, 8, 4).minus(qc(0, 0, 0, 0, 4)) == qc(0, 0, 24, 8, 4));
    rot_kpt_0_5();
    rot_kpt_1_5();
    len_rot_long_4();
}

#[verifier::spinoff_prover]
proof fn kite_join_case_1_5()
    ensures
        kite_join_claim(1, 5),
{
    lemma2_to64();
    assert(qc(0, -8, 0, 0, 5).doubled() == qc(0, -16, 0, 0, 5));
    assert(qc(0, 0, -24, -8, 5).doubled() == qc(0, 0, -48, -16, 5));
    assert(qc(8, 8, 0, 0, 4).plus(qc(-8, 0, 0, 0, 4)) == qc(0, 8, 0, 0, 4));
    assert(qc(0, 0, 0, 0, 4).plus(qc(0, 0, 24, 8, 4)) == qc(0, 0, 24, 8, 4));
    assert(qc(0, -16, 0, 0, 5).plus(qc(0, 8, 0, 0, 4)) == qc(0, 0, 0, 0, 5));
    assert(qc(0, 0, -48, -16, 5).plus(qc(0, 0, 24, 8, 4)) == qc(0, 0, 0, 0, 5));
    rot_kpt_0_5();
    rot_kpt_1_5();
    rot_kdel_1_5();
}

#[verifier::spinoff_prover]
proof fn kite_dir_case_1_6()
    ensures
        kite_dir_claim(1, 6),
{
    lemma2_to64();
    assert(qeq(qc(-96, -32, 0, 0, 6), qc(-24, -8, 0, 0, 4)));
    assert(qeq(qc(0, 0, 0, 0, 6), qc(0, 0, 0, 0, 4)));
    assert(norm360((324 + 36 * 6) as int) / 36 == 5);
    assert(kite_len(1) == EdgeLength::LONG);
    assert(qc(-48, -16, 0, 0, 6).minus(qc(48, 16, 0, 0, 6)) == qc(-96, -32, 0, 0, 6));
    assert(qc(0, 0, 32, 32, 6).minus(qc(0, 0, 16, 16, 5)) == qc(0, 0, 0, 0, 6));
    rot_kpt_0_6();
    rot_kpt_1_6();
    len_rot_long_5();
}

#[verifier::spinoff_prover]
proof fn kite_join_case_1_6()
    ensures
        kite_join_claim(1, 6),
{
    lemma2_to64();
    assert(qc(0, 0, 0, 0, 7).doubled() == qc(0, 0, 0, 0, 7));
    assert(qc(0, 0, -64, -64, 7).doubled() == qc(0, 0, -128, -128, 7));
    assert(qc(48, 16, 0, 0, 6).plus(qc(-48, -16, 0, 0, 6)) == qc(0, 0, 0, 0, 6));
    assert(qc(0, 0, 16, 16, 5).plus(qc(0, 0, 32, 32, 6)) == qc(0, 0, 64, 64, 6));
    assert(qc(0, 0, 0, 0, 7).plus(qc(0, 0, 0, 0, 6)) == qc(0, 0, 0, 0, 7));
    assert(qc(0, 0, -128, -128, 7).plus(qc(0, 0, 64, 64, 6)) == qc(0, 0, 0, 0, 7));
    rot_kpt_0_6();
    rot_kpt_1_6();
    rot_kdel_1_6();
}

#[verifier::spinoff_prover]
proof fn kite_dir_case_1_7()
    ensures
        kite_dir_claim(1, 7),
{
    lemma2_to64();
    assert(qeq(qc(-64, -32, 0, 0, 6), qc(-64, -32, 0, 0, 6)));
    assert(qeq(qc(0, 0, -96, -32, 6), qc(0, 0, -24, -8, 4)));
    assert(norm360((324 + 36 * 7) as int) / 36 == 6);
    assert(kite_len(1) == EdgeLength::LONG);
    assert(qc(-32, -32, 0, 0, 6).minus(qc(32, 0, 0, 0, 6)) == qc(-64, -32, 0, 0, 6));
    assert(qc(0, 0, 0, 0, 6).minus(qc(0, 0, 48, 16, 5)) == qc(0, 0, -96, -32, 6));
    rot_kpt_0_7();
    rot_kpt_1_7();
    len_rot_long_6();
}

#[verifier::spinoff_prover]
proof fn kite_join_case_1_7()
    ensures
        kite_join_claim(1, 7),
{
    lemma2_to64();
    assert(qc(0, 32, 0, 0, 7).doubled() == qc(0, 64, 0, 0, 7));
    assert(qc(0, 0, -96, -32, 7).doubled() == qc(0, 0, -192, -64, 7));
    assert(qc(32, 0, 0, 0, 6).plus(qc(-32, -32, 0, 0, 6)) == qc(0, -32, 0, 0, 6));
    assert(qc(0, 0, 48, 16, 5).plus(qc(0, 0, 0, 0, 6)) == qc(0, 0, 96, 32, 6));
    assert(qc(0, 64, 0, 0, 7).plus(qc(0, -32, 0, 0, 6)) == qc(0, 0, 0, 0, 7));
    assert(qc(0, 0, -192, -64, 7).plus(qc(0, 0, 96, 32, 6)) == qc(0, 0, 0, 0, 7));
    rot_kpt_0_7();
    rot_kpt_1_7();
    rot_kdel_1_7();
}

#[verifier::spinoff_prover]
proof fn kite_dir_case_1_8()
    ensures
        kite_dir_claim(1, 8),
{
    lemma2_to64();
    assert(qeq(qc(-16, -16, 0, 0, 6), qc(-16, -16, 0, 0, 6)));
    assert(qeq(qc(0, 0, -128, -64, 6), qc(0, 0, -64, -32, 5)));
    assert(norm360((324 + 36 * 8) as int) / 36 == 7);
    assert(kite_len(1) == EdgeLength::LONG);
    assert(qc(-48, -16, 0, 0, 6).minus(qc(-32, 0, 0, 0, 6)) == qc(-16, -16, 0, 0, 6));
    assert(qc(0, 0, -32, -32, 6).minus(qc(0, 0, 48, 16, 5)) == qc(0, 0, -128, -64, 6));
    rot_kpt_0_8();
    rot_kpt_1_8();
    len_rot_long_7();
}

#[verifier::spinoff_prover]
proof fn kite_join_case_1_8()
    ensures
        kite_join_claim(1, 8),
{
    lemma2_to64();
    assert(qc(80, 16, 0, 0, 7).doubled() == qc(160, 32, 0, 0, 7));
    assert(qc(0, 0, -64, 0, 7).doubled() == qc(0, 0, -128, 0, 7));
    assert(qc(-32, 0, 0, 0, 6).plus(qc(-48, -16, 0, 0, 6)) == qc(-80, -16, 0, 0, 6));
    assert(qc(0, 0, 48, 16, 5).plus(qc(0, 0, -32, -32, 6)) == qc(0, 0, 64, 0, 6));
    assert(qc(160, 32, 0, 0, 7).plus(qc(-80, -16, 0, 0, 6)) == qc(0, 0, 0, 0, 7));
    assert(qc(0, 0, -128, 0, 7).plus(qc(0, 0, 64, 0, 6)) == qc(0, 0, 0, 0, 7));
    rot_kpt_0_8();
    rot_kpt_1_8();
    rot_kdel_1_8();
}

#[verifier::spinoff_prover]
proof fn kite_dir_case_1_9()
    ensures
        kite_dir_claim(1, 9),
{
    lemma2_to64();
    assert(qeq(qc(16, 16, 0, 0, 6), qc(16, 16, 0, 0, 6)));
    assert(qeq(qc(0, 0, -128, -64, 6), qc(0, 0, -64, -32, 5)));
    assert(norm360((324 + 36 * 9) as int) / 36 == 8);
    assert(kite_len(1) == EdgeLength::LONG);
    assert(qc(-32, 0, 0, 0, 6).minus(qc(-48, -16, 0, 0, 6)) == qc(16, 16, 0, 0, 6));
    assert(qc(0, 0, -96, -32, 6).minus(qc(0, 0, 16, 16, 5)) == qc(0, 0, -128, -64, 6));
    rot_kpt_0_9();
    rot_kpt_1_9();
    len_rot_long_8();
}

#[verifier::spinoff_prover]
proof fn kite_join_case_1_9()
    ensures
        kite_join_claim(1, 9),
{
    lemma2_to64();
    assert(qc(80, 16, 0, 0, 7).doubled() == qc(160, 32, 0, 0, 7));
    assert(qc(0, 0, 64, 0, 7).doubled() == qc(0, 0, 128, 0, 7));
    assert(qc(-48, -16, 0, 0, 6).plus(qc(-32, 0, 0, 0, 6)) == qc(-80, -16, 0, 0, 6));
    assert(qc(0, 0, 16, 16, 5).plus(qc(0, 0, -96, -32, 6)) == qc(0, 0, -64, 0, 6));
    assert(qc(160, 32, 0, 0, 7).plus(qc(-80, -16, 0, 0, 6)) == qc(0, 0, 0, 0, 7));
    assert(qc(0, 0, 128, 0, 7).plus(qc(0, 0, -64, 0, 6)) == qc(0, 0, 0, 0, 7));
    rot_kpt_0_9();
    rot_kpt_1_9();
    rot_kdel_1_9();
}

#[verifier::spinoff_prover]
proof fn kite_dir_case_2_0()
    ensures
        kite_dir_claim(2, 0),
{
    lemma2_to64();
    assert(qeq(qc(8, 0, 0, 0, 4), qc(32, 0, 0, 0, 6)));
    assert(qeq(qc(0, 0, 24, 8, 4), qc(0, 0, 48, 16, 5)));
    assert(norm360((72 + 36 * 0) as int) / 36 == 2);
    assert(kite_len(2) == EdgeLength::SHORT);
    assert(qc(0, 0, 0, 0, 3).minus(qc(0, 0, -24, -8, 4)) == qc(0, 0, 24, 8, 4));
    assert(qc(8, 0, 0, 0, 3).minus(qc(8, 0, 0, 0, 4)) == qc(8, 0, 0, 0, 4));
    rot_kpt_1_0();
    rot_kpt_2_0();
    len_rot_short_2();
}

#[verifier::spinoff_prover]
proof fn kite_join_case_2_0()
    ensures
        kite_join_claim(2, 0),
{
    lemma2_to64();
    assert(qc(-24, 0, 0, 0, 5).doubled() == qc(-48, 0, 0, 0, 5));
    assert(qc(0, 0, 24, 8, 5).doubled() == qc(0, 0, 48, 16, 5));
    assert(qc(8, 0, 0, 0, 4).plus(qc(8, 0, 0, 0, 3)) == qc(24, 0, 0, 0, 4));
    assert(qc(0, 0, -24, -8, 4).plus(qc(0, 0, 0, 0, 3)) == qc(0, 0, -24, -8, 4));
    assert(qc(-48, 0, 0, 0, 5).plus(qc(24, 0, 0, 0, 4)) == qc(0, 0, 0, 0, 5));
    assert(qc(0, 0, 48, 16, 5).plus(qc(0, 0, -24, -8, 4)) == qc(0, 0, 0, 0, 5));
    rot_kpt_1_0();
    rot_kpt_2_0();
    rot_kdel_2_0();
}

#[verifier::spinoff_prover]
proof fn kite_dir_case_2_1()
    ensures
        kite_dir_claim(2, 1),
{
    lemma2_to64();
    assert(qeq(qc(-32, 0, 0, 0, 6), qc(-32, 0, 0, 0, 6)));
    assert(qeq(qc(0, 0, 96, 32, 6), qc(0, 0, 48, 16, 5)));
    assert(norm360((72 + 36 * 1) as int) / 36 == 3);
    assert(kite_len(2) == EdgeLength::SHORT);
    assert(qc(8, 8, 0, 0, 5).minus(qc(48, 16, 0, 0, 6)) == qc(-32, 0, 0, 0, 6));
    assert(qc(0, 0, 32, 0, 5).minus(qc(0, 0, -32, -32, 6)) == qc(0, 0, 96, 32, 6));
    rot_kpt_1_1();
    rot_kpt_2_1();
    len_rot_short_3();
}

#[verifier::spinoff_prover]
proof fn kite_join_case_2_1()
    ensures
        kite_join_claim(2, 1),
{
    lemma2_to64();
    assert(qc(-64, -32, 0, 0, 7).doubled() == qc(-128, -64, 0, 0, 7));
    assert(qc(0, 0, -32, 32, 7).doubled() == qc(0, 0, -64, 64, 7));
    assert(qc(48, 16, 0, 0, 6).plus(qc(8, 8, 0, 0, 5)) == qc(64, 32, 0, 0, 6));
    assert(qc(0, 0, -32, -32, 6).plus(qc(0, 0, 32, 0, 5)) == qc(0, 0, 32, -32, 6));
    assert(qc(-128, -64, 0, 0, 7).plus(qc(64, 32, 0, 0, 6)) == qc(0, 0, 0, 0, 7));
    assert(qc(0, 0, -64, 64, 7).plus(qc(0, 0, 32, -32, 6)) == qc(0, 0, 0, 0, 7));
    rot_kpt_1_1();
    rot_kpt_2_1();
    rot_kdel_2_1();
}

#[verifier::spinoff_prover]
proof fn kite_dir_case_2_2()
    ensures
        kite_dir_claim(2, 2),
{
    lemma2_to64();
    assert(qeq(qc(-48, -16, 0, 0, 6), qc(-48, -16, 0, 0, 6)));
    assert(qeq(qc(0, 0, 32, 32, 6), qc(0, 0, 8, 8, 4)));
    assert(norm360((72 + 36 * 2) as int) / 36 == 4);
    assert(kite_len(2) == EdgeLength::SHORT);
    assert(qc(-8, 8, 0, 0, 5).minus(qc(32, 32, 0, 0, 6)) == qc(-48, -16, 0, 0, 6));
    assert(qc(0, 0, 16, 16, 5).minus(qc(0, 0, 0, 0, 6)) == qc(0, 0, 32, 32, 6));
    rot_kpt_1_2();
    rot_kpt_2_2();
    len_rot_short_4();
}

#[verifier::spinoff_prover]
proof fn kite_join_case_2_2()
    ensures
        kite_join_claim(2, 2),
{
    lemma2_to64();
    assert(qc(-16, -48, 0, 0, 7).doubled() == qc(-32, -96, 0, 0, 7));
    assert(qc(0, 0, -32, -32, 7).doubled() == qc(0, 0, -64, -64, 7));
    assert(qc(32, 32, 0, 0, 6).plus(qc(-8, 8, 0, 0, 5)) == qc(16, 48, 0, 0, 6));
    assert(qc(0, 0, 0, 0, 6).plus(qc(0, 0, 16, 16, 5)) == qc(0, 0, 32, 32, 6));
    assert(qc(-32, -96, 0, 0, 7).plus(qc(16, 48, 0, 0, 6)) == qc(0, 0, 0, 0, 7));
    assert(qc(0, 0, -64, -64, 7).plus(qc(0, 0, 32, 32, 6)) == qc(0, 0, 0, 0, 7));
    rot_kpt_1_2();
    rot_kpt_2_2();
    rot_kdel_2_2();
}

#[verifier::spinoff_prover]
proof fn kite_dir_case_2_3()
    ensures
        kite_dir_claim(2, 3),
{
    lemma2_to64();
    assert(qeq(qc(-32, -32, 0, 0, 6), qc(-8, -8, 0, 0, 4)));
    assert(qeq(qc(0, 0, 0, 0, 6), qc(0, 0, 0, 0, 4)));
    assert(norm360((72 + 36 * 3) as int) / 36 == 5);
    assert(kite_len(2) == EdgeLength::SHORT);
    assert(qc(8, -8, 0, 0, 5).minus(qc(48, 16, 0, 0, 6)) == qc(-32, -32, 0, 0, 6));
    assert(qc(0, 0, 16, 16, 5).minus(qc(0, 0, 32, 32, 6)) == qc(0, 0, 0, 0, 6));
    rot_kpt_1_3();
    rot_kpt_2_3();
    len_rot_short_5();
}

#[verifier::spinoff_prover]
proof fn kite_join_case_2_3()
    ensures
        kite_join_claim(2, 3),
{
    lemma2_to64();
    assert(qc(-64, 0, 0, 0, 7).doubled() == qc(-128, 0, 0, 0, 7));
    assert(qc(0, 0, -64, -64, 7).doubled() == qc(0, 0, -128, -128, 7));
    assert(qc(48, 16, 0, 0, 6).plus(qc(8, -8, 0, 0, 5)) == qc(64, 0, 0, 0, 6));
    assert(qc(0, 0, 32, 32, 6).plus(qc(0, 0, 16, 16, 5)) == qc(0, 0, 64, 64, 6));
    assert(qc(-128, 0, 0, 0, 7).plus(qc(64, 0, 0, 0, 6)) == qc(0, 0, 0, 0, 7));
    assert(qc(0, 0, -128, -128, 7).plus(qc(0, 0, 64, 64, 6)) == qc(0, 0, 0, 0, 7));
    rot_kpt_1_3();
    rot_kpt_2_3();
    rot_kdel_2_3();
}

#[verifier::spinoff_prover]
proof fn kite_dir_case_2_4()
    ensures
        kite_dir_claim(2, 4),
{
    lemma2_to64();
    assert(qeq(qc(-48, -16, 0, 0, 6), qc(-48, -16, 0, 0, 6)));
    assert(qeq(qc(0, 0, -32, -32, 6), qc(0, 0, -8, -8, 4)));
    assert(norm360((72 + 36 * 4) as int) / 36 == 6);
    assert(kite_len(2) == EdgeLength::SHORT);
    assert(qc(-8, -8, 0, 0, 5).minus(qc(32, 0, 0, 0, 6)) == qc(-48, -16, 0, 0, 6));
    assert(qc(0, 0, 32, 0, 5).minus(qc(0, 0, 96, 32, 6)) == qc(0, 0, -32, -32, 6));
    rot_kpt_1_4();
    rot_kpt_2_4();
    len_rot_short_6();
}

#[verifier::spinoff_prover]
proof fn kite_join_case_2_4()
    ensures
        kite_join_claim(2, 4),
{
    lemma2_to64();
    assert(qc(-16, 16, 0, 0, 7).doubled() == qc(-32, 32, 0, 0, 7));
    assert(qc(0, 0, -160, -32, 7).doubled() == qc(0, 0, -320, -64, 7));
    assert(qc(32, 0, 0, 0, 6).plus(qc(-8, -8, 0, 0, 5)) == qc(16, -16, 0, 0, 6));
    assert(qc(0, 0, 96, 32, 6).plus(qc(0, 0, 32, 0, 5)) == qc(0, 0, 160, 32, 6));
    assert(qc(-32, 32, 0, 0, 7).plus(qc(16, -16, 0, 0, 6)) == qc(0, 0, 0, 0, 7));
    assert(qc(0, 0, -320, -64, 7).plus(qc(0, 0, 160, 32, 6)) == qc(0, 0, 0, 0, 7));
    rot_kpt_1_4();
    rot_kpt_2_4();
    rot_kdel_2_4();
}

#[verifier::spinoff_prover]
proof fn kite_dir_case_2_5()
    ensures
        kite_dir_claim(2, 5),
{
    lemma2_to64();
    assert(qeq(qc(-8, 0, 0, 0, 4), qc(-32, 0, 0, 0, 6)));
    assert(qeq(qc(0, 0, -24, -8, 4), qc(0, 0, -48, -16, 5)));
    assert(norm360((72 + 36 * 5) as int) / 36 == 7);
    assert(kite_len(2) == EdgeLength::SHORT);
    assert(qc(0, 0, 0, 0, 3).minus(qc(0, 0, 24, 8, 4)) == qc(0, 0, -24, -8, 4));
    assert(qc(-8, 0, 0, 0, 3).minus(qc(-8, 0, 0, 0, 4)) == qc(-8, 0, 0, 0, 4));
    rot_kpt_1_5();
    rot_kpt_2_5();
    len_rot_short_7();
}

#[verifier::spinoff_prover]
proof fn kite_join_case_2_5()
    ensures
        kite_join_claim(2, 5),
{
    lemma2_to64();
    assert(qc(24, 0, 0, 0, 5).doubled() == qc(48, 0, 0, 0, 5));
    assert(qc(0, 0, -24, -8, 5).doubled() == qc(0, 0, -48, -16, 5));
    assert(qc(-8, 0, 0, 0, 4).plus(qc(-8, 0, 0, 0, 3)) == qc(-24, 0, 0, 0, 4));
    assert(qc(0, 0, 24, 8, 4).plus(qc(0, 0, 0, 0, 3)) == qc(0, 0, 24, 8, 4));
    assert(qc(48, 0, 0, 0, 5).plus(qc(-24, 0, 0, 0, 4)) == qc(0, 0, 0, 0, 5));
    assert(qc(0, 0, -48, -16, 5).plus(qc(0, 0, 24, 8, 4)) == qc(0, 0, 0, 0, 5));
    rot_kpt_1_5();
    rot_kpt_2_5();
    rot_kdel_2_5();
}

#[verifier::spinoff_prover]
proof fn kite_dir_case_2_6()
    ensures
        kite_dir_claim(2, 6),
{
    lemma2_to64();
    assert(qeq(qc(32, 0, 0, 0, 6), qc(32, 0, 0, 0, 6)));
    assert(qeq(qc(0, 0, -96, -32, 6), qc(0, 0, -48, -16, 5)));
    assert(norm360((72 + 36 * 6) as int) / 36 == 8);
    assert(kite_len(2) == EdgeLength::SHORT);
    assert(qc(-8, -8, 0, 0, 5).minus(qc(-48, -16, 0, 0, 6)) == qc(32, 0, 0, 0, 6));
    assert(qc(0, 0, -32, 0, 5).minus(qc(0, 0, 32, 32, 6)) == qc(0, 0, -96, -32, 6));
    rot_kpt_1_6();
    rot_kpt_2_6();
    len_rot_short_8();
}

#[verifier::spinoff_prover]
proof fn kite_join_case_2_6()
    ensures
        kite_join_claim(2, 6),
{
    lemma2_to64();
    assert(qc(64, 32, 0, 0, 7).doubled() == qc(128, 64, 0, 0, 7));
    assert(qc(0, 0, 32, -32, 7).doubled() == qc(0, 0, 64, -64, 7));
    assert(qc(-48, -16, 0, 0, 6).plus(qc(-8, -8, 0, 0, 5)) == qc(-64, -32, 0, 0, 6));
    assert(qc(0, 0, 32, 32, 6).plus(qc(0, 0, -32, 0, 5)) == qc(0, 0, -32, 32, 6));
    assert(qc(128, 64, 0, 0, 7).plus(qc(-64, -32, 0, 0, 6)) == qc(0, 0, 0, 0, 7));
    assert(qc(0, 0, 64, -64, 7).plus(qc(0, 0, -32, 32, 6)) == qc(0, 0, 0, 0, 7));
    rot_kpt_1_6();
    rot_kpt_2_6();
    rot_kdel_2_6();
}

#[verifier::spinoff_prover]
proof fn kite_dir_case_2_7()
    ensures
        kite_dir_claim(2, 7),
{
    lemma2_to64();
    assert(qeq(qc(48, 16, 0, 0, 6), qc(48, 16, 0, 0, 6)));
    assert(qeq(qc(0, 0, -32, -32, 6), qc(0, 0, -8, -8, 4)));
    assert(norm360((72 + 36 * 7) as int) / 36 == 9);
    assert(kite_len(2) == EdgeLength::SHORT);
    assert(qc(8, -8, 0, 0, 5).minus(qc(-32, -32, 0, 0, 6)) == qc(48, 16, 0, 0, 6));
    assert(qc(0, 0, -16, -16, 5).minus(qc(0, 0, 0, 0, 6)) == qc(0, 0, -32, -32, 6));
    rot_kpt_1_7();
    rot_kpt_2_7();
    len_rot_short_9();
}

#[verifier::spinoff_prover]
proof fn kite_join_case_2_7()
    ensures
        kite_join_claim(2, 7),
{
    lemma2_to64();
    assert(qc(16, 48, 0, 0, 7).doubled() == qc(32, 96, 0, 0, 7));
    assert(qc(0, 0, 32, 32, 7).doubled() == qc(0, 0, 64, 64, 7));
    assert(qc(-32, -32, 0, 0, 6).plus(qc(8, -8, 0, 0, 5)) == qc(-16, -48, 0, 0, 6));
    assert(qc(0, 0, 0, 0, 6).plus(qc(0, 0, -16, -16, 5)) == qc(0, 0, -32, -32, 6));
    assert(qc(32, 96, 0, 0, 7).plus(qc(-16, -48, 0, 0, 6)) == qc(0, 0, 0, 0, 7));
    assert(qc(0, 0, 64, 64, 7).plus(qc(0, 0, -32, -32, 6)) == qc(0, 0, 0, 0, 7));
    rot_kpt_1_7();
    rot_kpt_2_7();
    rot_kdel_2_7();
}

#[verifier::spinoff_prover]
proof fn kite_dir_case_2_8()
    ensures
        kite_dir_claim(2, 8),
{
    lemma2_to64();
    assert(qeq(qc(32, 32, 0, 0, 6), qc(8, 8, 0, 0, 4)));
    assert(qeq(qc(0, 0, 0, 0, 6), qc(0, 0, 0, 0, 4)));
    assert(norm360((72 + 36 * 8) as int) / 36 == 0);
    assert(kite_len(2) == EdgeLength::SHORT);
    assert(qc(-8, 8, 0, 0, 5).minus(qc(-48, -16, 0, 0, 6)) == qc(32, 32, 0, 0, 6));
    assert(qc(0, 0, -16, -16, 5).minus(qc(0, 0, -32, -32, 6)) == qc(0, 0, 0, 0, 6));
    rot_kpt_1_8();
    rot_kpt_2_8();
    len_rot_short_0();
}

#[verifier::spinoff_prover]
proof fn kite_join_case_2_8()
    ensures
        kite_join_claim(2, 8),
{
    lemma2_to64();
    assert(qc(64, 0, 0, 0, 7).doubled() == qc(128, 0, 0, 0, 7));
    assert(qc(0, 0, 64, 64, 7).doubled() == qc(0, 0, 128, 128, 7));
    assert(qc(-48, -16, 0, 0, 6).plus(qc(-8, 8, 0, 0, 5)) == qc(-64, 0, 0, 0, 6));
    assert(qc(0, 0, -32, -32, 6).plus(qc(0, 0, -16, -16, 5)) == qc(0, 0, -64, -64, 6));
    assert(qc(128, 0, 0, 0, 7).plus(qc(-64, 0, 0, 0, 6)) == qc(0, 0, 0, 0, 7));
    assert(qc(0, 0, 128, 128, 7).plus(qc(0, 0, -64, -64, 6)) == qc(0, 0, 0, 0, 7));
    rot_kpt_1_8();
    rot_kpt_2_8();
    rot_kdel_2_8();
}

#[verifier::spinoff_prover]
proof fn kite_dir_case_2_9()
    ensures
        kite_dir_claim(2, 9),
{
    lemma2_to64();
    assert(qeq(qc(48, 16, 0, 0, 6), qc(48, 16, 0, 0, 6)));
    assert(qeq(qc(0, 0, 32, 32, 6), qc(0, 0, 8, 8, 4)));
    assert(norm360((72 + 36 * 9) as int) / 36 == 1);
    assert(kite_len(2) == EdgeLength::SHORT);
    assert(qc(8, 8, 0, 0, 5).minus(qc(-32, 0, 0, 0, 6)) == qc(48, 16, 0, 0, 6));
    assert(qc(0, 0, -32, 0, 5).minus(qc(0, 0, -96, -32, 6)) == qc(0, 0, 32, 32, 6));
    rot_kpt_1_9();
    rot_kpt_2_9();
    len_rot_short_1();
}

#[verifier::spinoff_prover]
proof fn kite_join_case_2_9()
    ensures
        kite_join_claim(2, 9),
{
    lemma2_to64();
    assert(qc(16, -16, 0, 0, 7).doubled() == qc(32, -32, 0, 0, 7));
    assert(qc(0, 0, 160, 32, 7).doubled() == qc(0, 0, 320, 64, 7));
    assert(qc(-32, 0, 0, 0, 6).plus(qc(8, 8, 0, 0, 5)) == qc(-16, 16, 0, 0, 6));
    assert(qc(0, 0, -96, -32, 6).plus(qc(0, 0, -32, 0, 5)) == qc(0, 0, -160, -32, 6));
    assert(qc(32, -32, 0, 0, 7).plus(qc(-16, 16, 0, 0, 6)) == qc(0, 0, 0, 0, 7));
    assert(qc(0, 0, 320, 64, 7).plus(qc(0, 0, -160, -32, 6)) == qc(0, 0, 0, 0, 7));
    rot_kpt_1_9();
    rot_kpt_2_9();
    rot_kdel_2_9();
}

#[verifier::spinoff_prover]
proof fn kite_dir_case_3_0()
    ensures
        kite_dir_claim(3, 0),
{
    lemma2_to64();
    assert(qeq(qc(-8, 0, 0, 0, 4), qc(-32, 0, 0, 0, 6)));
    assert(qeq(qc(0, 0, 24, 8, 4), qc(0, 0, 48, 16, 5)));
    assert(norm360((108 + 36 * 0) as int) / 36 == 3);
    assert(kite_len(3) == EdgeLength::SHORT);
    assert(qc(8, 0, 0, 0, 4).minus(qc(8, 0, 0, 0, 3)) == qc(-8, 0, 0, 0, 4));
    assert(qc(0, 0, 24, 8, 4).minus(qc(0, 0, 0, 0, 3)) == qc(0, 0, 24, 8, 4));
    rot_kpt_2_0();
    rot_kpt_3_0();
    len_rot_short_3();
}

#[verifier::spinoff_prover]
proof fn kite_join_case_3_0()
    ensures
        kite_join_claim(3, 0),
{
    lemma2_to64();
    assert(qc(-24, 0, 0, 0, 5).doubled() == qc(-48, 0, 0, 0, 5));
    assert(qc(0, 0, -24, -8, 5).doubled() == qc(0, 0, -48, -16, 5));
    assert(qc(8, 0, 0, 0, 3).plus(qc(8, 0, 0, 0, 4)) == qc(24, 0, 0, 0, 4));
    assert(qc(0, 0, 0, 0, 3).plus(qc(0, 0, 24, 8, 4)) == qc(0, 0, 24, 8, 4));
    assert(qc(-48, 0, 0, 0, 5).plus(qc(24, 0, 0, 0, 4)) == qc(0, 0, 0, 0, 5));
    assert(qc(0, 0, -48, -16, 5).plus(qc(0, 0, 24, 8, 4)) == qc(0, 0, 0, 0, 5));
    rot_kpt_2_0();
    rot_kpt_3_0();
    rot_kdel_3_0();
}

#[verifier::spinoff_prover]
proof fn kite_dir_case_3_1()
    ensures
        kite_dir_claim(3, 1),
{
    lemma2_to64();
    assert(qeq(qc(-48, -16, 0, 0, 6), qc(-48, -16, 0, 0, 6)));
    assert(qeq(qc(0, 0, 32, 32, 6), qc(0, 0, 8, 8, 4)));
    assert(norm360((108 + 36 * 1) as int) / 36 == 4);
    assert(kite_len(3) == EdgeLength::SHORT);
    assert(qc(-32, 0, 0, 0, 6).minus(qc(8, 8, 0, 0, 5)) == qc(-48, -16, 0, 0, 6));
    assert(qc(0, 0, 96, 32, 6).minus(qc(0, 0, 32, 0, 5)) == qc(0, 0, 32, 32, 6));
    rot_kpt_2_1();
    rot_kpt_3_1();
    len_rot_short_4();
}

#[verifier::spinoff_prover]
proof fn kite_join_case_3_1()
    ensures
        kite_join_claim(3, 1),
{
    lemma2_to64();
    assert(qc(16, -16, 0, 0, 7).doubled() == qc(32, -32, 0, 0, 7));
    assert(qc(0, 0, -160, -32, 7).doubled() == qc(0, 0, -320, -64, 7));
    assert(qc(8, 8, 0, 0, 5).plus(qc(-32, 0, 0, 0, 6)) == qc(-16, 16, 0, 0, 6));
    assert(qc(0, 0, 32, 0, 5).plus(qc(0, 0, 96, 32, 6)) == qc(0, 0, 160, 32, 6));
    assert(qc(32, -32, 0, 0, 7).plus(qc(-16, 16, 0, 0, 6)) == qc(0, 0, 0, 0, 7));
    assert(qc(0, 0, -320, -64, 7).plus(qc(0, 0, 160, 32, 6)) == qc(0, 0, 0, 0, 7));
    rot_kpt_2_1();
    rot_kpt_3_1();
    rot_kdel_3_1();
}

#[verifier::spinoff_prover]
proof fn kite_dir_case_3_2()
    ensures
        kite_dir_claim(3, 2),
{
    lemma2_to64();
    assert(qeq(qc(-32, -32, 0, 0, 6), qc(-8, -8, 0, 0, 4)));
    assert(qeq(qc(0, 0, 0, 0, 6), qc(0, 0, 0, 0, 4)));
    assert(norm360((108 + 36 * 2) as int) / 36 == 5);
    assert(kite_len(3) == EdgeLength::SHORT);
    assert(qc(-48, -16, 0, 0, 6).minus(qc(-8, 8, 0, 0, 5)) == qc(-32, -32, 0, 0, 6));
    assert(qc(0, 0, 32, 32, 6).minus(qc(0, 0, 16, 16, 5)) == qc(0, 0, 0, 0, 6));
    rot_kpt_2_2();
    rot_kpt_3_2();
    len_rot_short_5();
}

#[verifier::spinoff_prover]
proof fn kite_join_case_3_2()
    ensures
        kite_join_claim(3, 2),
{
    lemma2_to64();
    assert(qc(64, 0, 0, 0, 7).doubled() == qc(128, 0, 0, 0, 7));
    assert(qc(0, 0, -64, -64, 7).doubled() == qc(0, 0, -128, -128, 7));
    assert(qc(-8, 8, 0, 0, 5).plus(qc(-48, -16, 0, 0, 6)) == qc(-64, 0, 0, 0, 6));
    assert(qc(0, 0, 16, 16, 5).plus(qc(0, 0, 32, 32, 6)) == qc(0, 0, 64, 64, 6));
    assert(qc(128, 0, 0, 0, 7).plus(qc(-64, 0, 0, 0, 6)) == qc(0, 0, 0, 0, 7));
    assert(qc(0, 0, -128, -128, 7).plus(qc(0, 0, 64, 64, 6)) == qc(0, 0, 0, 0, 7));
    rot_kpt_2_2();
    rot_kpt_3_2();
    rot_kdel_3_2();
}

#[verifier::spinoff_prover]
proof fn kite_dir_case_3_3()
    ensures
        kite_dir_claim(3, 3),
{
    lemma2_to64();
    assert(qeq(qc(-48, -16, 0, 0, 6), qc(-48, -16, 0, 0, 6)));
    assert(qeq(qc(0, 0, -32, -32, 6), qc(0, 0, -8, -8, 4)));
    assert(norm360((108 + 36 * 3) as int) / 36 == 6);
    assert(kite_len(3) == EdgeLength::SHORT);
    assert(qc(-32, -32, 0, 0, 6).minus(qc(8, -8, 0, 0, 5)) == qc(-48, -16, 0, 0, 6));
    assert(qc(0, 0, 0, 0, 6).minus(qc(0, 0, 16, 16, 5)) == qc(0, 0, -32, -32, 6));
    rot_kpt_2_3();
    rot_kpt_3_3();
    len_rot_short_6();
}

#[verifier::spinoff_prover]
proof fn kite_join_case_3_3()
    ensures
        kite_join_claim(3, 3),
{
    lemma2_to64();
    assert(qc(16, 48, 0, 0, 7).doubled() == qc(32, 96, 0, 0, 7));
    assert(qc(0, 0, -32, -32, 7).doubled() == qc(0, 0, -64, -64, 7));
    assert(qc(8, -8, 0, 0, 5).plus(qc(-32, -32, 0, 0, 6)) == qc(-16, -48, 0, 0, 6));
    assert(qc(0, 0, 16, 16, 5).plus(qc(0, 0, 0, 0, 6)) == qc(0, 0, 32, 32, 6));
    assert(qc(32, 96, 0, 0, 7).plus(qc(-16, -48, 0, 0, 6)) == qc(0, 0, 0, 0, 7));
    assert(qc(0, 0, -64, -64, 7).plus(qc(0, 0, 32, 32, 6)) == qc(0, 0, 0, 0, 7));
    rot_kpt_2_3();
    rot_kpt_3_3();
    rot_kdel_3_3();
}

#[verifier::spinoff_prover]
proof fn kite_dir_case_3_4()
    ensures
        kite_dir_claim(3, 4),
{
    lemma2_to64();
    assert(qeq(qc(-32, 0, 0, 0, 6), qc(-32, 0, 0, 0, 6)));
    assert(qeq(qc(0, 0, -96, -32, 6), qc(0, 0, -48, -16, 5)));
    assert(norm360((108 + 36 * 4) as int) / 36 == 7);
    assert(kite_len(3) == EdgeLength::SHORT);
    assert(qc(-48, -16, 0, 0, 6).minus(qc(-8, -8, 0, 0, 5)) == qc(-32, 0, 0, 0, 6));
    assert(qc(0, 0, -32, -32, 6).minus(qc(0, 0, 32, 0, 5)) == qc(0, 0, -96, -32, 6));
    rot_kpt_2_4();
    rot_kpt_3_4();
    len_rot_short_7();
}

#[verifier::spinoff_prover]
proof fn kite_join_case_3_4()
    ensures
        kite_join_claim(3, 4),
{
    lemma2_to64();
    assert(qc(64, 32, 0, 0, 7).doubled() == qc(128, 64, 0, 0, 7));
    assert(qc(0, 0, -32, 32, 7).doubled() == qc(0, 0, -64, 64, 7));
    assert(qc(-8, -8, 0, 0, 5).plus(qc(-48, -16, 0, 0, 6)) == qc(-64, -32, 0, 0, 6));
    assert(qc(0, 0, 32, 0, 5).plus(qc(0, 0, -32, -32, 6)) == qc(0, 0, 32, -32, 6));
    assert(qc(128, 64, 0, 0, 7).plus(qc(-64, -32, 0, 0, 6)) == qc(0, 0, 0, 0, 7));
    assert(qc(0, 0, -64, 64, 7).plus(qc(0, 0, 32, -32, 6)) == qc(0, 0, 0, 0, 7));
    rot_kpt_2_4();
    rot_kpt_3_4();
    rot_kdel_3_4();
}

#[verifier::spinoff_prover]
proof fn kite_dir_case_3_5()
    ensures
        kite_dir_claim(3, 5),
{
    lemma2_to64();
    assert(qeq(qc(8, 0, 0, 0, 4), qc(32, 0, 0, 0, 6)));
    assert(qeq(qc(0, 0, -24, -8, 4), qc(0, 0, -48, -16, 5)));
    assert(norm360((108 + 36 * 5) as int) / 36 == 8);
    assert(kite_len(3) == EdgeLength::SHORT);
    assert(qc(-8, 0, 0, 0, 4).minus(qc(-8, 0, 0, 0, 3)) == qc(8, 0, 0, 0, 4));
    assert(qc(0, 0, -24, -8, 4).minus(qc(0, 0, 0, 0, 3)) == qc(0, 0, -24, -8, 4));
    rot_kpt_2_5();
    rot_kpt_3_5();
    len_rot_short_8();
}

#[verifier::spinoff_prover]
proof fn kite_join_case_3_5()
    ensures
        kite_join_claim(3, 5),
{
    lemma2_to64();
    assert(qc(24, 0, 0, 0, 5).doubled() == qc(48, 0, 0, 0, 5));
    assert(qc(0, 0, 24, 8, 5).doubled() == qc(0, 0, 48, 16, 5));
    assert(qc(-8, 0, 0, 0, 3).plus(qc(-8, 0, 0, 0, 4)) == qc(-24, 0, 0, 0, 4));
    assert(qc(0, 0, 0, 0, 3).plus(qc(0, 0, -24, -8, 4)) == qc(0, 0, -24, -8, 4));
    assert(qc(48, 0, 0, 0, 5).plus(qc(-24, 0, 0, 0, 4)) == qc(0, 0, 0, 0, 5));
    assert(qc(0, 0, 48, 16, 5).plus(qc(0, 0, -24, -8, 4)) == qc(0, 0, 0, 0, 5));
    rot_kpt_2_5();
    rot_kpt_3_5();
    rot_kdel_3_5();
}

#[verifier::spinoff_prover]
proof fn kite_dir_case_3_6()
    ensures
        kite_dir_claim(3, 6),
{
    lemma2_to64();
    assert(qeq(qc(48, 16, 0, 0, 6), qc(48, 16, 0, 0, 6)));
    assert(qeq(qc(0, 0, -32, -32, 6), qc(0, 0, -8, -8, 4)));
    assert(norm360((108 + 36 * 6) as int) / 36 == 9);
    assert(kite_len(3) == EdgeLength::SHORT);
    assert(qc(32, 0, 0, 0, 6).minus(qc(-8, -8, 0, 0, 5)) == qc(48, 16, 0, 0, 6));
    assert(qc(0, 0, -96, -32, 6).minus(qc(0, 0, -32, 0, 5)) == qc(0, 0, -32, -32, 6));
    rot_kpt_2_6();
    rot_kpt_3_6();
    len_rot_short_9();
}

#[verifier::spinoff_prover]
proof fn kite_join_case_3_6()
    ensures
        kite_join_claim(3, 6),
{
    lemma2_to64();
    assert(qc(-16, 16, 0, 0, 7).doubled() == qc(-32, 32, 0, 0, 7));
    assert(qc(0, 0, 160, 32, 7).doubled() == qc(0, 0, 320, 64, 7));
    assert(qc(-8, -8, 0, 0, 5).plus(qc(32, 0, 0, 0, 6)) == qc(16, -16, 0, 0, 6));
    assert(qc(0, 0, -32, 0, 5).plus(qc(0, 0, -96, -32, 6)) == qc(0, 0, -160, -32, 6));
    assert(qc(-32, 32, 0, 0, 7).plus(qc(16, -16, 0, 0, 6)) == qc(0, 0, 0, 0, 7));
    assert(qc(0, 0, 320, 64, 7).plus(qc(0, 0, -160, -32, 6)) == qc(0, 0, 0, 0, 7));
    rot_kpt_2_6();
    rot_kpt_3_6();
    rot_kdel_3_6();
}

#[verifier::spinoff_prover]
proof fn kite_dir_case_3_7()
    ensures
        kite_dir_claim(3, 7),
{
    lemma2_to64();
    assert(qeq(qc(32, 32, 0, 0, 6), qc(8, 8, 0, 0, 4)));
    assert(qeq(qc(0, 0, 0, 0, 6), qc(0, 0, 0, 0, 4)));
    assert(norm360((108 + 36 * 7) as int) / 36 == 0);
    assert(kite_len(3) == EdgeLength::SHORT);
    assert(qc(48, 16, 0, 0, 6).minus(qc(8, -8, 0, 0, 5)) == qc(32, 32, 0, 0, 6));
    assert(qc(0, 0, -32, -32, 6).minus(qc(0, 0, -16, -16, 5)) == qc(0, 0, 0, 0, 6));
    rot_kpt_2_7();
    rot_kpt_3_7();
    len_rot_short_0();
}

#[verifier::spinoff_prover]
proof fn kite_join_case_3_7()
    ensures
        kite_join_claim(3, 7),
{
    lemma2_to64();
    assert(qc(-64, 0, 0, 0, 7).doubled() == qc(-128, 0, 0, 0, 7));
    assert(qc(0, 0, 64, 64, 7).doubled() == qc(0, 0, 128, 128, 7));
    assert(qc(8, -8, 0, 0, 5).plus(qc(48, 16, 0, 0, 6)) == qc(64, 0, 0, 0, 6));
    assert(qc(0, 0, -16, -16, 5).plus(qc(0, 0, -32, -32, 6)) == qc(0, 0, -64, -64, 6));
    assert(qc(-128, 0, 0, 0, 7).plus(qc(64, 0, 0, 0, 6)) == qc(0, 0, 0, 0, 7));
    assert(qc(0, 0, 128, 128, 7).plus(qc(0, 0, -64, -64, 6)) == qc(0, 0, 0, 0, 7));
    rot_kpt_2_7();
    rot_kpt_3_7();
    rot_kdel_3_7();
}

#[verifier::spinoff_prover]
proof fn kite_dir_case_3_8()
    ensures
        kite_dir_claim(3, 8),
{
    lemma2_to64();
    assert(qeq(qc(48, 16, 0, 0, 6), qc(48, 16, 0, 0, 6)));
    assert(qeq(qc(0, 0, 32, 32, 6), qc(0, 0, 8, 8, 4)));
    assert(norm360((108 + 36 * 8) as int) / 36 == 1);
    assert(kite_len(3) == EdgeLength::SHORT);
    assert(qc(32, 32, 0, 0, 6).minus(qc(-8, 8, 0, 0, 5)) == qc(48, 16, 0, 0, 6));
    assert(qc(0, 0, 0, 0, 6).minus(qc(0, 0, -16, -16, 5)) == qc(0, 0, 32, 32, 6));
    rot_kpt_2_8();
    rot_kpt_3_8();
    len_rot_short_1();
}

#[verifier::spinoff_prover]
proof fn kite_join_case_3_8()
    ensures
        kite_join_claim(3, 8),
{
    lemma2_to64();
    assert(qc(-16, -48, 0, 0, 7).doubled() == qc(-32, -96, 0, 0, 7));
    assert(qc(0, 0, 32, 32, 7).doubled() == qc(0, 0, 64, 64, 7));
    assert(qc(-8, 8, 0, 0, 5).plus(qc(32, 32, 0, 0, 6)) == qc(16, 48, 0, 0, 6));
    assert(qc(0, 0, -16, -16, 5).plus(qc(0, 0, 0, 0, 6)) == qc(0, 0, -32, -32, 6));
    assert(qc(-32, -96, 0, 0, 7).plus(qc(16, 48, 0, 0, 6)) == qc(0, 0, 0, 0, 7));
    assert(qc(0, 0, 64, 64, 7).plus(qc(0, 0, -32, -32, 6)) == qc(0, 0, 0, 0, 7));
    rot_kpt_2_8();
    rot_kpt_3_8();
    rot_kdel_3_8();
}

#[verifier::spinoff_prover]
proof fn kite_dir_case_3_9()
    ensures
        kite_dir_claim(3, 9),
{
    lemma2_to64();
    assert(qeq(qc(32, 0, 0, 0, 6), qc(32, 0, 0, 0, 6)));
    assert(qeq(qc(0, 0, 96, 32, 6), qc(0, 0, 48, 16, 5)));
    assert(norm360((108 + 36 * 9) as int) / 36 == 2);
    assert(kite_len(3) == EdgeLength::SHORT);
    assert(qc(48, 16, 0, 0, 6).minus(qc(8, 8, 0, 0, 5)) == qc(32, 0, 0, 0, 6));
    assert(qc(0, 0, 32, 32, 6).minus(qc(0, 0, -32, 0, 5)) == qc(0, 0, 96, 32, 6));
    rot_kpt_2_9();
    rot_kpt_3_9();
    len_rot_short_2();
}

#[verifier::spinoff_prover]
proof fn kite_join_case_3_9()
    ensures
        kite_join_claim(3, 9),
{
    lemma2_to64();
    assert(qc(-64, -32, 0, 0, 7).doubled() == qc(-128, -64, 0, 0, 7));
    assert(qc(0, 0, 32, -32, 7).doubled() == qc(0, 0, 64, -64, 7));
    assert(qc(8, 8, 0, 0, 5).plus(qc(48, 16, 0, 0, 6)) == qc(64, 32, 0, 0, 6));
    assert(qc(0, 0, -32, 0, 5).plus(qc(0, 0, 32, 32, 6)) == qc(0, 0, -32, 32, 6));
    assert(qc(-128, -64, 0, 0, 7).plus(qc(64, 32, 0, 0, 6)) == qc(0, 0, 0, 0, 7));
    assert(qc(0, 0, 64, -64, 7).plus(qc(0, 0, -32, 32, 6)) == qc(0, 0, 0, 0, 7));
    rot_kpt_2_9();
    rot_kpt_3_9();
    rot_kdel_3_9();
}

#[verifier::spinoff_prover]
proof fn kite_dir_case_4_0()
    ensures
        kite_dir_claim(4, 0),
{
    lemma2_to64();
    assert(qeq(qc(-16, -8, 0, 0, 4), qc(-64, -32, 0, 0, 6)));
    assert(qeq(qc(0, 0, -24, -8, 4), qc(0, 0, -24, -8, 4)));
    assert(norm360((216 + 36 * 0) as int) / 36 == 6);
    assert(kite_len(4) == EdgeLength::LONG);
    assert(qc(-8, -8, 0, 0, 4).minus(qc(8, 0, 0, 0, 4)) == qc(-16, -8, 0, 0, 4));
    assert(qc(0, 0, 0, 0, 4).minus(qc(0, 0, 24, 8, 4)) == qc(0, 0, -24, -8, 4));
    rot_kpt_3_0();
    rot_kpt_0_0();
    len_rot_long_6();
}

#[verifier::spinoff_prover]
proof fn kite_join_case_4_0()
    ensures
        kite_join_claim(4, 0),
{
    lemma2_to64();
    assert(qc(0, 8, 0, 0, 5).doubled() == qc(0, 16, 0, 0, 5));
    assert(qc(0, 0, -24, -8, 5).doubled() == qc(0, 0, -48, -16, 5));
    assert(qc(8, 0, 0, 0, 4).plus(qc(-8, -8, 0, 0, 4)) == qc(0, -8, 0, 0, 4));
    assert(qc(0, 0, 24, 8, 4).plus(qc(0, 0, 0, 0, 4)) == qc(0, 0, 24, 8, 4));
    assert(qc(0, 16, 0, 0, 5).plus(qc(0, -8, 0, 0, 4)) == qc(0, 0, 0, 0, 5));
    assert(qc(0, 0, -48, -16, 5).plus(qc(0, 0, 24, 8, 4)) == qc(0, 0, 0, 0, 5));
    rot_kpt_3_0();
    rot_kpt_0_0();
    rot_kdel_4_0();
}

#[verifier::spinoff_prover]
proof fn kite_dir_case_4_1()
    ensures
        kite_dir_claim(4, 1),
{
    lemma2_to64();
    assert(qeq(qc(-16, -16, 0, 0, 6), qc(-16, -16, 0, 0, 6)));
    assert(qeq(qc(0, 0, -128, -64, 6), qc(0, 0, -64, -32, 5)));
    assert(norm360((216 + 36 * 1) as int) / 36 == 7);
    assert(kite_len(4) == EdgeLength::LONG);
    assert(qc(-48, -16, 0, 0, 6).minus(qc(-32, 0, 0, 0, 6)) == qc(-16, -16, 0, 0, 6));
    assert(qc(0, 0, -16, -16, 5).minus(qc(0, 0, 96, 32, 6)) == qc(0, 0, -128, -64, 6));
    rot_kpt_3_1();
    rot_kpt_0_1();
    len_rot_long_7();
}

#[verifier::spinoff_prover]
proof fn kite_join_case_4_1()
    ensures
        kite_join_claim(4, 1),
{
    lemma2_to64();
    assert(qc(80, 16, 0, 0, 7).doubled() == qc(160, 32, 0, 0, 7));
    assert(qc(0, 0, -64, 0, 7).doubled() == qc(0, 0, -128, 0, 7));
    assert(qc(-32, 0, 0, 0, 6).plus(qc(-48, -16, 0, 0, 6)) == qc(-80, -16, 0, 0, 6));
    assert(qc(0, 0, 96, 32, 6).plus(qc(0, 0, -16, -16, 5)) == qc(0, 0, 64, 0, 6));
    assert(qc(160, 32, 0, 0, 7).plus(qc(-80, -16, 0, 0, 6)) == qc(0, 0, 0, 0, 7));
    assert(qc(0, 0, -128, 0, 7).plus(qc(0, 0, 64, 0, 6)) == qc(0, 0, 0, 0, 7));
    rot_kpt_3_1();
    rot_kpt_0_1();
    rot_kdel_4_1();
}

#[verifier::spinoff_prover]
proof fn kite_dir_case_4_2()
    ensures
        kite_dir_claim(4, 2),
{
    lemma2_to64();
    assert(qeq(qc(16, 16, 0, 0, 6), qc(16, 16, 0, 0, 6)));
    assert(qeq(qc(0, 0, -128, -64, 6), qc(0, 0, -64, -32, 5)));
    assert(norm360((216 + 36 * 2) as int) / 36 == 8);
    assert(kite_len(4) == EdgeLength::LONG);
    assert(qc(-32, 0, 0, 0, 6).minus(qc(-48, -16, 0, 0, 6)) == qc(16, 16, 0, 0, 6));
    assert(qc(0, 0, -48, -16, 5).minus(qc(0, 0, 32, 32, 6)) == qc(0, 0, -128, -64, 6));
    rot_kpt_3_2();
    rot_kpt_0_2();
    len_rot_long_8();
}

#[verifier::spinoff_prover]
proof fn kite_join_case_4_2()
    ensures
        kite_join_claim(4, 2),
{
    lemma2_to64();
    assert(qc(80, 16, 0, 0, 7).doubled() == qc(160, 32, 0, 0, 7));
    assert(qc(0, 0, 64, 0, 7).doubled() == qc(0, 0, 128, 0, 7));
    assert(qc(-48, -16, 0, 0, 6).plus(qc(-32, 0, 0, 0, 6)) == qc(-80, -16, 0, 0, 6));
    assert(qc(0, 0, 32, 32, 6).plus(qc(0, 0, -48, -16, 5)) == qc(0, 0, -64, 0, 6));
    assert(qc(160, 32, 0, 0, 7).plus(qc(-80, -16, 0, 0, 6)) == qc(0, 0, 0, 0, 7));
    assert(qc(0, 0, 128, 0, 7).plus(qc(0, 0, -64, 0, 6)) == qc(0, 0, 0, 0, 7));
    rot_kpt_3_2();
    rot_kpt_0_2();
    rot_kdel_4_2();
}

#[verifier::spinoff_prover]
proof fn kite_dir_case_4_3()
    ensures
        kite_dir_claim(4, 3),
{
    lemma2_to64();
    assert(qeq(qc(64, 32, 0, 0, 6), qc(64, 32, 0, 0, 6)));
    assert(qeq(qc(0, 0, -96, -32, 6), qc(0, 0, -24, -8, 4)));
    assert(norm360((216 + 36 * 3) as int) / 36 == 9);
    assert(kite_len(4) == EdgeLength::LONG);
    assert(qc(32, 0, 0, 0, 6).minus(qc(-32, -32, 0, 0, 6)) == qc(64, 32, 0, 0, 6));
    assert(qc(0, 0, -48, -16, 5).minus(qc(0, 0, 0, 0, 6)) == qc(0, 0, -96, -32, 6));
    rot_kpt_3_3();
    rot_kpt_0_3();
    len_rot_long_9();
}

#[verifier::spinoff_prover]
proof fn kite_join_case_4_3()
    ensures
        kite_join_claim(4, 3),
{
    lemma2_to64();
    assert(qc(0, 32, 0, 0, 7).doubled() == qc(0, 64, 0, 0, 7));
    assert(qc(0, 0, 96, 32, 7).doubled() == qc(0, 0, 192, 64, 7));
    assert(qc(-32, -32, 0, 0, 6).plus(qc(32, 0, 0, 0, 6)) == qc(0, -32, 0, 0, 6));
    assert(qc(0, 0, 0, 0, 6).plus(qc(0, 0, -48, -16, 5)) == qc(0, 0, -96, -32, 6));
    assert(qc(0, 64, 0, 0, 7).plus(qc(0, -32, 0, 0, 6)) == qc(0, 0, 0, 0, 7));
    assert(qc(0, 0, 192, 64, 7).plus(qc(0, 0, -96, -32, 6)) == qc(0, 0, 0, 0, 7));
    rot_kpt_3_3();
    rot_kpt_0_3();
    rot_kdel_4_3();
}

#[verifier::spinoff_prover]
proof fn kite_dir_case_4_4()
    ensures
        kite_dir_claim(4, 4),
{
    lemma2_to64();
    assert(qeq(qc(96, 32, 0, 0, 6), qc(24, 8, 0, 0, 4)));
    assert(qeq(qc(0, 0, 0, 0, 6), qc(0, 0, 0, 0, 4)));
    assert(norm360((216 + 36 * 4) as int) / 36 == 0);
    assert(kite_len(4) == EdgeLength::LONG);
    assert(qc(48, 16, 0, 0, 6).minus(qc(-48, -16, 0, 0, 6)) == qc(96, 32, 0, 0, 6));
    assert(qc(0, 0, -16, -16, 5).minus(qc(0, 0, -32, -32, 6)) == qc(0, 0, 0, 0, 6));
    rot_kpt_3_4();
    rot_kpt_0_4();
    len_rot_long_0();
}

#[verifier::spinoff_prover]
proof fn kite_join_case_4_4()
    ensures
        kite_join_claim(4, 4),
{
    lemma2_to64();
    assert(qc(0, 0, 0, 0, 7).doubled() == qc(0, 0, 0, 0, 7));
    assert(qc(0, 0, 64, 64, 7).doubled() == qc(0, 0, 128, 128, 7));
    assert(qc(-48, -16, 0, 0, 6).plus(qc(48, 16, 0, 0, 6)) == qc(0, 0, 0, 0, 6));
    assert(qc(0, 0, -32, -32, 6).plus(qc(0, 0, -16, -16, 5)) == qc(0, 0, -64, -64, 6));
    assert(qc(0, 0, 0, 0, 7).plus(qc(0, 0, 0, 0, 6)) == qc(0, 0, 0, 0, 7));
    assert(qc(0, 0, 128, 128, 7).plus(qc(0, 0, -64, -64, 6)) == qc(0, 0, 0, 0, 7));
    rot_kpt_3_4();
    rot_kpt_0_4();
    rot_kdel_4_4();
}

#[verifier::spinoff_prover]
proof fn kite_dir_case_4_5()
    ensures
        kite_dir_claim(4, 5),
{
    lemma2_to64();
    assert(qeq(qc(16, 8, 0, 0, 4), qc(64, 32, 0, 0, 6)));
    assert(qeq(qc(0, 0, 24, 8, 4), qc(0, 0, 24, 8, 4)));
    assert(norm360((216 + 36 * 5) as int) / 36 == 1);
    assert(kite_len(4) == EdgeLength::LONG);
    assert(qc(8, 8, 0, 0, 4).minus(qc(-8, 0, 0, 0, 4)) == qc(16, 8, 0, 0, 4));
    assert(qc(0, 0, 0, 0, 4).minus(qc(0, 0, -24, -8, 4)) == qc(0, 0, 24, 8, 4));
    rot_kpt_3_5();
    rot_kpt_0_5();
    len_rot_long_1();
}

#[verifier::spinoff_prover]
proof fn kite_join_case_4_5()
    ensures
        kite_join_claim(4, 5),
{
    lemma2_to64();
    assert(qc(0, -8, 0, 0, 5).doubled() == qc(0, -16, 0, 0, 5));
    assert(qc(0, 0, 24, 8, 5).doubled() == qc(0, 0, 48, 16, 5));
    assert(qc(-8, 0, 0, 0, 4).plus(qc(8, 8, 0, 0, 4)) == qc(0, 8, 0, 0, 4));
    assert(qc(0, 0, -24, -8, 4).plus(qc(0, 0, 0, 0, 4)) == qc(0, 0, -24, -8, 4));
    assert(qc(0, -16, 0, 0, 5).plus(qc(0, 8, 0, 0, 4)) == qc(0, 0, 0, 0, 5));
    assert(qc(0, 0, 48, 16, 5).plus(qc(0, 0, -24, -8, 4)) == qc(0, 0, 0, 0, 5));
    rot_kpt_3_5();
    rot_kpt_0_5();
    rot_kdel_4_5();
}

#[verifier::spinoff_prover]
proof fn kite_dir_case_4_6()
    ensures
        kite_dir_claim(4, 6),
{
    lemma2_to64();
    assert(qeq(qc(16, 16, 0, 0, 6), qc(16, 16, 0, 0, 6)));
    assert(qeq(qc(0, 0, 128, 64, 6), qc(0, 0, 64, 32, 5)));
    assert(norm360((216 + 36 * 6) as int) / 36 == 2);
    assert(kite_len(4) == EdgeLength::LONG);
    assert(qc(48, 16, 0, 0, 6).minus(qc(32, 0, 0, 0, 6)) == qc(16, 16, 0, 0, 6));
    assert(qc(0, 0, 16, 16, 5).minus(qc(0, 0, -96, -32, 6)) == qc(0, 0, 128, 64, 6));
    rot_kpt_3_6();
    rot_kpt_0_6();
    len_rot_long_2();
}

#[verifier::spinoff_prover]
proof fn kite_join_case_4_6()
    ensures
        kite_join_claim(4, 6),
{
    lemma2_to64();
    assert(qc(-80, -16, 0, 0, 7).doubled() == qc(-160, -32, 0, 0, 7));
    assert(qc(0, 0, 64, 0, 7).doubled() == qc(0, 0, 128, 0, 7));
    assert(qc(32, 0, 0, 0, 6).plus(qc(48, 16, 0, 0, 6)) == qc(80, 16, 0, 0, 6));
    assert(qc(0, 0, -96, -32, 6).plus(qc(0, 0, 16, 16, 5)) == qc(0, 0, -64, 0, 6));
    assert(qc(-160, -32, 0, 0, 7).plus(qc(80, 16, 0, 0, 6)) == qc(0, 0, 0, 0, 7));
    assert(qc(0, 0, 128, 0, 7).plus(qc(0, 0, -64, 0, 6)) == qc(0, 0, 0, 0, 7));
    rot_kpt_3_6();
    rot_kpt_0_6();
    rot_kdel_4_6();
}

#[verifier::spinoff_prover]
proof fn kite_dir_case_4_7()
    ensures
        kite_dir_claim(4, 7),
{
    lemma2_to64();
    assert(qeq(qc(-16, -16, 0, 0, 6), qc(-16, -16, 0, 0, 6)));
    assert(qeq(qc(0, 0, 128, 64, 6), qc(0, 0, 64, 32, 5)));
    assert(norm360((216 + 36 * 7) as int) / 36 == 3);
    assert(kite_len(4) == EdgeLength::LONG);
    assert(qc(32, 0, 0, 0, 6).minus(qc(48, 16, 0, 0, 6)) == qc(-16, -16, 0, 0, 6));
    assert(qc(0, 0, 48, 16, 5).minus(qc(0, 0, -32, -32, 6)) == qc(0, 0, 128, 64, 6));
    rot_kpt_3_7();
    rot_kpt_0_7();
    len_rot_long_3();
}

#[verifier::spinoff_prover]
proof fn kite_join_case_4_7()
    ensures
        kite_join_claim(4, 7),
{
    lemma2_to64();
    assert(qc(-80, -16, 0, 0, 7).doubled() == qc(-160, -32, 0, 0, 7));
    assert(qc(0, 0, -64, 0, 7).doubled() == qc(0, 0, -128, 0, 7));
    assert(qc(48, 16, 0, 0, 6).plus(qc(32, 0, 0, 0, 6)) == qc(80, 16, 0, 0, 6));
    assert(qc(0, 0, -32, -32, 6).plus(qc(0, 0, 48, 16, 5)) == qc(0, 0, 64, 0, 6));
    assert(qc(-160, -32, 0, 0, 7).plus(qc(80, 16, 0, 0, 6)) == qc(0, 0, 0, 0, 7));
    assert(qc(0, 0, -128, 0, 7).plus(qc(0, 0, 64, 0, 6)) == qc(0, 0, 0, 0, 7));
    rot_kpt_3_7();
    rot_kpt_0_7();
    rot_kdel_4_7();
}

#[verifier::spinoff_prover]
proof fn kite_dir_case_4_8()
    ensures
        kite_dir_claim(4, 8),
{
    lemma2_to64();
    assert(qeq(qc(-64, -32, 0, 0, 6), qc(-64, -32, 0, 0, 6)));
    assert(qeq(qc(0, 0, 96, 32, 6), qc(0, 0, 24, 8, 4)));
    assert(norm360((216 + 36 * 8) as int) / 36 == 4);
    assert(kite_len(4) == EdgeLength::LONG);
    assert(qc(-32, 0, 0, 0, 6).minus(qc(32, 32, 0, 0, 6)) == qc(-64, -32, 0, 0, 6));
    assert(qc(0, 0, 48, 16, 5).minus(qc(0, 0, 0, 0, 6)) == qc(0, 0, 96, 32, 6));
    rot_kpt_3_8();
    rot_kpt_0_8();
    len_rot_long_4();
}

#[verifier::spinoff_prover]
proof fn kite_join_case_4_8()
    ensures
        kite_join_claim(4, 8),
{
    lemma2_to64();
    assert(qc(0, -32, 0, 0, 7).doubled() == qc(0, -64, 0, 0, 7));
    assert(qc(0, 0, -96, -32, 7).doubled() == qc(0, 0, -192, -64, 7));
    assert(qc(32, 32, 0, 0, 6).plus(qc(-32, 0, 0, 0, 6)) == qc(0, 32, 0, 0, 6));
    assert(qc(0, 0, 0, 0, 6).plus(qc(0, 0, 48, 16, 5)) == qc(0, 0, 96, 32, 6));
    assert(qc(0, -64, 0, 0, 7).plus(qc(0, 32, 0, 0, 6)) == qc(0, 0, 0, 0, 7));
    assert(qc(0, 0, -192, -64, 7).plus(qc(0, 0, 96, 32, 6)) == qc(0, 0, 0, 0, 7));
    rot_kpt_3_8();
    rot_kpt_0_8();
    rot_kdel_4_8();
}

#[verifier::spinoff_prover]
proof fn kite_dir_case_4_9()
    ensures
        kite_dir_claim(4, 9),
{
    lemma2_to64();
    assert(qeq(qc(-96, -32, 0, 0, 6), qc(-24, -8, 0, 0, 4)));
    assert(qeq(qc(0, 0, 0, 0, 6), qc(0, 0, 0, 0, 4)));
    assert(norm360((216 + 36 * 9) as int) / 36 == 5);
    assert(kite_len(4) == EdgeLength::LONG);
    assert(qc(-48, -16, 0, 0, 6).minus(qc(48, 16, 0, 0, 6)) == qc(-96, -32, 0, 0, 6));
    assert(qc(0, 0, 16, 16, 5).minus(qc(0, 0, 32, 32, 6)) == qc(0, 0, 0, 0, 6));
    rot_kpt_3_9();
    rot_kpt_0_9();
    len_rot_long_5();
}

#[verifier::spinoff_prover]
proof fn kite_join_case_4_9()
    ensures
        kite_join_claim(4, 9),
{
    lemma2_to64();
    assert(qc(0, 0, 0, 0, 7).doubled() == qc(0, 0, 0, 0, 7));
    assert(qc(0, 0, -64, -64, 7).doubled() == qc(0, 0, -128, -128, 7));
    assert(qc(48, 16, 0, 0, 6).plus(qc(-48, -16, 0, 0, 6)) == qc(0, 0, 0, 0, 6));
    assert(qc(0, 0, 32, 32, 6).plus(qc(0, 0, 16, 16, 5)) == qc(0, 0, 64, 64, 6));
    assert(qc(0, 0, 0, 0, 7).plus(qc(0, 0, 0, 0, 6)) == qc(0, 0, 0, 0, 7));
    assert(qc(0, 0, -128, -128, 7).plus(qc(0, 0, 64, 64, 6)) == qc(0, 0, 0, 0, 7));
    rot_kpt_3_9();
    rot_kpt_0_9();
    rot_kdel_4_9();
}

/// `kite_dir_claim` holds for every edge and every grid rotation.
pub(crate) proof fn lemma_kite_dir_table(e: int, u: int)
    requires
        1 <= e <= 4,
        0 <= u < 10,
    ensures
        kite_dir_claim(e, u),
{
    if e == 1 {
        if u == 0 {
            kite_dir_case_1_0();
        } else if u == 1 {
            kite_dir_case_1_1();
        } else if u == 2 {
            kite_dir_case_1_2();
        } else if u == 3 {
            kite_dir_case_1_3();
        } else if u == 4 {
            kite_dir_case_1_4();
        } else if u == 5 {
            kite_dir_case_1_5();
        } else if u == 6 {
            kite_dir_case_1_6();
        } else if u == 7 {
            kite_dir_case_1_7();
        } else if u == 8 {
            kite_dir_case_1_8();
        } else if u == 9 {
            kite_dir_case_1_9();
        } else {
            assert(false);
        }
    } else if e == 2 {
        if u == 0 {
            kite_dir_case_2_0();
        } else if u == 1 {
            kite_dir_case_2_1();
        } else if u == 2 {
            kite_dir_case_2_2();
        } else if u == 3 {
            kite_dir_case_2_3();
        } else if u == 4 {
            kite_dir_case_2_4();
        } else if u == 5 {
            kite_dir_case_2_5();
        } else if u == 6 {
            kite_dir_case_2_6();
        } else if u == 7 {
            kite_dir_case_2_7();
        } else if u == 8 {
            kite_dir_case_2_8();
        } else if u == 9 {
            kite_dir_case_2_9();
        } else {
            assert(false);
        }
    } else if e == 3 {
        if u == 0 {
            kite_dir_case_3_0();
        } else if u == 1 {
            kite_dir_case_3_1();
        } else if u == 2 {
            kite_dir_case_3_2();
        } else if u == 3 {
            kite_dir_case_3_3();
        } else if u == 4 {
            kite_dir_case_3_4();
        } else if u == 5 {
            kite_dir_case_3_5();
        } else if u == 6 {
            kite_dir_case_3_6();
        } else if u == 7 {
            kite_dir_case_3_7();
        } else if u == 8 {
            kite_dir_case_3_8();
        } else if u == 9 {
            kite_dir_case_3_9();
        } else {
            assert(false);
        }
    } else if e == 4 {
        if u == 0 {
            kite_dir_case_4_0();
        } else if u == 1 {
            kite_dir_case_4_1();
        } else if u == 2 {
            kite_dir_case_4_2();
        } else if u == 3 {
            kite_dir_case_4_3();
        } else if u == 4 {
            kite_dir_case_4_4();
        } else if u == 5 {
            kite_dir_case_4_5();
        } else if u == 6 {
            kite_dir_case_4_6();
        } else if u == 7 {
            kite_dir_case_4_7();
        } else if u == 8 {
            kite_dir_case_4_8();
        } else if u == 9 {
            kite_dir_case_4_9();
        } else {
            assert(false);
        }
    } else {
        assert(false);
    }
}

/// `kite_join_claim` holds for every edge and every grid rotation.
pub(crate) proof fn lemma_kite_join_table(e: int, u: int)
    requires
        1 <= e <= 4,
        0 <= u < 10,
    ensures
        kite_join_claim(e, u),
{
    if e == 1 {
        if u == 0 {
            kite_join_case_1_0();
        } else if u == 1 {
            kite_join_case_1_1();
        } else if u == 2 {
            kite_join_case_1_2();
        } else if u == 3 {
            kite_join_case_1_3();
        } else if u == 4 {
            kite_join_case_1_4();
        } else if u == 5 {
            kite_join_case_1_5();
        } else if u == 6 {
            kite_join_case_1_6();
        } else if u == 7 {
            kite_join_case_1_7();
        } else if u == 8 {
            kite_join_case_1_8();
        } else if u == 9 {
            kite_join_case_1_9();
        } else {
            assert(false);
        }
    } else if e == 2 {
        if u == 0 {
            kite_join_case_2_0();
        } else if u == 1 {
            kite_join_case_2_1();
        } else if u == 2 {
            kite_join_case_2_2();
        } else if u == 3 {
            kite_join_case_2_3();
        } else if u == 4 {
            kite_join_case_2_4();
        } else if u == 5 {
            kite_join_case_2_5();
        } else if u == 6 {
            kite_join_case_2_6();
        } else if u == 7 {
            kite_join_case_2_7();
        } else if u == 8 {
            kite_join_case_2_8();
        } else if u == 9 {
            kite_join_case_2_9();
        } else {
            assert(false);
        }
    } else if e == 3 {
        if u == 0 {
            kite_join_case_3_0();
        } else if u == 1 {
            kite_join_case_3_1();
        } else if u == 2 {
            kite_join_case_3_2();
        } else if u == 3 {
            kite_join_case_3_3();
        } else if u == 4 {
            kite_join_case_3_4();
        } else if u == 5 {
            kite_join_case_3_5();
        } else if u == 6 {
            kite_join_case_3_6();
        } else if u == 7 {
            kite_join_case_3_7();
        } else if u == 8 {
            kite_join_case_3_8();
        } else if u == 9 {
            kite_join_case_3_9();
        } else {
            assert(false);
        }
    } else if e == 4 {
        if u == 0 {
            kite_join_case_4_0();
        } else if u == 1 {
            kite_join_case_4_1();
        } else if u == 2 {
            kite_join_case_4_2();
        } else if u == 3 {
            kite_join_case_4_3();
        } else if u == 4 {
            kite_join_case_4_4();
        } else if u == 5 {
            kite_join_case_4_5();
        } else if u == 6 {
            kite_join_case_4_6();
        } else if u == 7 {
            kite_join_case_4_7();
        } else if u == 8 {
            kite_join_case_4_8();
        } else if u == 9 {
            kite_join_case_4_9();
        } else {
            assert(false);
        }
    } else {
        assert(false);
    }
}

} // verus!
