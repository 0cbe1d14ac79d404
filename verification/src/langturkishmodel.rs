//! The supplied single-byte detection model for Turkish text in ISO-8859-9
//! (Latin-5): the character order map and the bigram precedence matrix over
//! the 64 most frequent orders, with the calibrated typical positive ratio.

use vstd::prelude::*;
use vstd::slice::slice_to_vec;

use crate::sbcharsetprober::SBStateMachineModel;

verus! {

/// An inert single-byte model: every byte maps to the control sentinel and
/// every bigram is illegal, so a detector driven by it counts nothing. It is
/// the stand-in used if a supplied table set fails validation, so that
/// construction never panics.
pub fn fallback_sb_model(
    keep_english_letter: bool,
    charset_name: String,
    language: String,
) -> (m: SBStateMachineModel)
    ensures
        m.wf(),
        m.keep_english_letter == keep_english_letter,
        m.charset_name@ == charset_name@,
        m.language@ == language@,
{
    let char_to_order_map: Vec<u8> = vec![255u8; 256];
    let precedence_matrix: Vec<u8> = vec![0u8; 4096];
    proof {
        assert(forall|i: int| 0 <= i < 256 ==> char_to_order_map@[i] == 255u8);
        assert(forall|i: int| 0 <= i < 4096 ==> precedence_matrix@[i] == 0u8);
    }
    SBStateMachineModel {
        char_to_order_map,
        precedence_matrix,
        ratio_num: 1,
        ratio_den: 1,
        keep_english_letter,
        charset_name,
        language,
    }
}

/// The supplied order map and bigram matrix for Turkish in ISO-8859-9, with
/// a typical positive ratio of 0.970290.
pub fn latin5_turkish_model() -> (m: SBStateMachineModel)
    ensures
        m.wf(),
        m.keep_english_letter == true,
        m.charset_name@ == "ISO-8859-9"@,
        m.language@ == "Turkish"@,
{
    let order_map: [u8; 256] = [
        255, 255, 255, 255, 255, 255, 255, 255, 255, 255, 255, 255, 255, 255, 255, 255,
        255, 255, 255, 255, 255, 255, 255, 255, 255, 255, 255, 255, 255, 255, 255, 255,
        255, 255, 255, 255, 255, 255, 255, 255, 255, 255, 255, 255, 255, 255, 255, 255,
        255, 255, 255, 255, 255, 255, 255, 255, 255, 255, 255, 255, 255, 255, 255, 255,
        255, 23, 37, 47, 39, 29, 52, 36, 45, 53, 60, 16, 49, 20, 46, 42,
        48, 69, 44, 35, 31, 51, 38, 62, 65, 43, 56, 255, 255, 255, 255, 255,
        255, 1, 21, 28, 12, 2, 18, 27, 25, 3, 24, 10, 5, 13, 4, 15,
        26, 64, 7, 8, 9, 14, 32, 57, 58, 11, 22, 255, 255, 255, 255, 255,
        180, 179, 178, 177, 176, 175, 174, 173, 172, 171, 170, 169, 168, 167, 166, 165,
        164, 163, 162, 161, 160, 159, 101, 158, 157, 156, 155, 154, 153, 152, 151, 106,
        150, 149, 148, 147, 146, 145, 144, 100, 143, 142, 141, 140, 139, 138, 137, 136,
        94, 80, 93, 135, 105, 134, 133, 63, 132, 131, 130, 129, 128, 127, 126, 125,
        124, 104, 73, 99, 79, 85, 123, 54, 122, 98, 92, 121, 120, 91, 103, 119,
        68, 118, 117, 97, 116, 115, 50, 90, 114, 113, 112, 111, 55, 41, 40, 86,
        89, 70, 59, 78, 71, 82, 88, 33, 77, 66, 84, 83, 110, 75, 61, 96,
        30, 67, 109, 74, 87, 102, 34, 95, 81, 108, 76, 72, 17, 6, 19, 107,
    ];
    let matrix: [u8; 4096] = [
        3, 2, 3, 3, 3, 1, 3, 3, 3, 3, 3, 3, 3, 3, 2, 1,
        1, 3, 3, 1, 3, 3, 0, 3, 3, 3, 3, 3, 0, 3, 1, 3,
        3, 2, 1, 0, 0, 1, 1, 0, 0, 0, 1, 0, 0, 1, 1, 1,
        1, 0, 0, 0, 0, 0, 0, 0, 2, 2, 0, 0, 1, 0, 0, 1,
        3, 2, 2, 3, 3, 0, 3, 3, 3, 3, 3, 3, 3, 2, 3, 1,
        0, 3, 3, 1, 3, 3, 0, 3, 3, 3, 3, 3, 0, 3, 0, 3,
        3, 1, 1, 0, 1, 0, 1, 0, 0, 0, 0, 0, 0, 1, 1, 1,
        1, 0, 0, 0, 0, 0, 0, 0, 2, 2, 0, 0, 0, 1, 0, 1,
        3, 3, 2, 3, 3, 0, 3, 3, 3, 3, 3, 3, 3, 2, 3, 1,
        1, 3, 3, 0, 3, 3, 1, 2, 3, 3, 3, 3, 0, 3, 0, 3,
        3, 1, 1, 0, 0, 0, 1, 0, 0, 0, 0, 1, 1, 0, 1, 2,
        1, 0, 0, 0, 1, 0, 0, 0, 0, 2, 0, 0, 0, 0, 0, 1,
        3, 3, 3, 3, 3, 3, 2, 3, 3, 3, 3, 3, 3, 3, 3, 1,
        3, 3, 2, 0, 3, 2, 1, 2, 2, 1, 3, 3, 0, 0, 0, 2,
        2, 2, 0, 1, 0, 0, 1, 0, 0, 1, 1, 0, 0, 0, 0, 0,
        0, 0, 0, 0, 0, 0, 0, 1, 0, 1, 1, 0, 1, 0, 0, 1,
        3, 3, 3, 2, 3, 3, 1, 2, 3, 3, 3, 3, 3, 3, 3, 1,
        3, 2, 1, 0, 3, 2, 0, 1, 2, 3, 3, 2, 1, 0, 0, 2,
        2, 1, 0, 0, 0, 0, 0, 0, 0, 0, 0, 0, 0, 1, 0, 0,
        0, 0, 0, 0, 0, 0, 0, 0, 0, 0, 2, 0, 2, 0, 0, 0,
        1, 0, 1, 3, 3, 1, 3, 3, 3, 3, 3, 3, 3, 1, 2, 0,
        0, 2, 3, 0, 2, 3, 0, 0, 2, 2, 2, 3, 0, 3, 0, 1,
        2, 1, 0, 0, 0, 0, 0, 0, 0, 0, 0, 0, 0, 0, 0, 0,
        0, 0, 0, 0, 0, 0, 0, 0, 0, 0, 0, 0, 0, 0, 0, 0,
        3, 3, 3, 3, 3, 3, 3, 3, 3, 3, 3, 3, 3, 3, 3, 0,
        3, 3, 3, 0, 3, 2, 0, 2, 3, 2, 3, 3, 1, 0, 0, 2,
        3, 2, 0, 0, 1, 0, 0, 0, 0, 0, 0, 2, 0, 0, 1, 0,
        0, 0, 0, 0, 0, 0, 0, 0, 1, 1, 1, 0, 2, 0, 0, 1,
        3, 3, 3, 2, 3, 3, 2, 3, 3, 3, 3, 2, 3, 3, 3, 0,
        3, 3, 0, 0, 2, 1, 0, 0, 2, 3, 2, 2, 0, 0, 0, 2,
        2, 2, 0, 0, 0, 0, 0, 0, 0, 0, 0, 0, 0, 0, 0, 0,
        0, 0, 0, 1, 1, 0, 0, 0, 1, 0, 1, 0, 2, 0, 0, 1,
        3, 3, 3, 2, 3, 3, 3, 3, 3, 3, 3, 2, 3, 3, 3, 0,
        3, 2, 0, 1, 3, 2, 1, 1, 3, 2, 3, 2, 1, 0, 0, 2,
        2, 2, 0, 0, 1, 0, 0, 0, 0, 0, 0, 0, 0, 0, 0, 0,
        0, 0, 0, 0, 0, 0, 0, 0, 1, 0, 1, 0, 0, 0, 0, 0,
        3, 3, 3, 2, 3, 3, 3, 3, 3, 3, 3, 2, 3, 3, 3, 0,
        3, 2, 2, 0, 2, 3, 0, 0, 2, 2, 2, 2, 0, 0, 0, 2,
        3, 3, 0, 0, 0, 0, 0, 0, 0, 0, 0, 0, 0, 0, 0, 0,
        0, 0, 0, 0, 0, 0, 0, 0, 1, 0, 2, 0, 1, 0, 0, 0,
        3, 3, 3, 3, 3, 3, 3, 2, 2, 2, 2, 3, 2, 3, 3, 0,
        3, 3, 1, 1, 2, 2, 0, 0, 2, 2, 3, 2, 0, 0, 1, 3,
        0, 3, 1, 0, 0, 0, 1, 0, 0, 0, 0, 0, 0, 0, 0, 0,
        0, 0, 0, 0, 0, 0, 0, 0, 1, 0, 1, 0, 0, 0, 0, 1,
        3, 3, 3, 2, 3, 3, 3, 2, 1, 2, 2, 3, 2, 3, 3, 0,
        3, 2, 0, 0, 1, 1, 0, 1, 1, 2, 1, 2, 0, 0, 0, 1,
        0, 3, 0, 0, 0, 0, 0, 0, 0, 0, 0, 1, 0, 0, 0, 0,
        0, 0, 0, 0, 0, 0, 0, 0, 1, 0, 1, 0, 1, 0, 0, 0,
        3, 3, 3, 2, 3, 3, 2, 3, 2, 2, 2, 3, 3, 3, 3, 1,
        3, 1, 1, 0, 3, 2, 1, 1, 3, 3, 2, 3, 1, 0, 0, 1,
        1, 0, 0, 1, 0, 0, 0, 0, 0, 0, 0, 0, 0, 0, 0, 0,
        0, 0, 0, 0, 0, 0, 0, 0, 0, 0, 1, 0, 2, 0, 0, 1,
        3, 2, 2, 3, 3, 0, 3, 3, 3, 3, 3, 3, 3, 2, 2, 1,
        0, 3, 3, 1, 3, 3, 0, 1, 3, 3, 2, 3, 0, 3, 0, 3,
        2, 0, 0, 0, 0, 0, 0, 0, 0, 0, 0, 1, 0, 0, 0, 0,
        0, 0, 0, 0, 0, 0, 0, 0, 0, 1, 0, 0, 0, 0, 0, 0,
        2, 2, 2, 3, 3, 0, 3, 3, 3, 3, 3, 3, 3, 3, 3, 0,
        0, 3, 2, 0, 3, 3, 0, 3, 2, 3, 3, 3, 0, 3, 1, 3,
        2, 0, 0, 0, 0, 0, 0, 0, 0, 0, 0, 1, 0, 1, 2, 0,
        1, 0, 0, 0, 0, 0, 0, 0, 2, 2, 0, 0, 1, 0, 0, 1,
        3, 3, 3, 1, 2, 3, 3, 1, 0, 0, 1, 0, 0, 3, 3, 2,
        3, 0, 0, 2, 0, 0, 2, 0, 2, 0, 0, 0, 2, 0, 2, 0,
        0, 3, 1, 0, 1, 0, 0, 0, 2, 2, 1, 0, 1, 1, 2, 1,
        2, 2, 2, 0, 2, 1, 1, 0, 0, 0, 2, 0, 0, 0, 0, 0,
        1, 2, 1, 3, 3, 0, 3, 3, 3, 3, 3, 2, 3, 0, 0, 0,
        0, 2, 3, 0, 2, 3, 1, 0, 2, 3, 1, 3, 0, 3, 0, 2,
        3, 0, 0, 0, 0, 0, 0, 0, 0, 1, 0, 0, 0, 0, 0, 0,
        0, 0, 0, 0, 0, 0, 0, 0, 0, 0, 0, 0, 0, 0, 0, 0,
        3, 3, 3, 1, 3, 3, 2, 2, 3, 2, 2, 0, 1, 2, 3, 0,
        1, 2, 1, 0, 1, 0, 0, 0, 1, 0, 2, 2, 0, 0, 0, 1,
        1, 1, 0, 0, 0, 0, 0, 0, 0, 0, 0, 0, 0, 0, 0, 1,
        0, 0, 0, 0, 0, 0, 0, 0, 1, 1, 0, 0, 1, 0, 0, 0,
        3, 3, 3, 1, 3, 3, 1, 1, 3, 3, 1, 1, 3, 3, 1, 0,
        2, 1, 2, 0, 2, 1, 0, 0, 1, 1, 2, 1, 0, 0, 0, 2,
        2, 1, 0, 0, 0, 0, 0, 0, 0, 0, 0, 0, 0, 0, 0, 0,
        0, 0, 0, 0, 0, 0, 0, 0, 0, 0, 0, 0, 0, 0, 0, 0,
        3, 3, 3, 1, 0, 2, 1, 3, 0, 0, 2, 0, 0, 3, 3, 0,
        3, 0, 0, 1, 0, 1, 2, 0, 0, 1, 1, 2, 2, 0, 1, 0,
        0, 1, 2, 1, 1, 0, 1, 0, 1, 1, 1, 1, 1, 0, 1, 1,
        1, 2, 2, 1, 2, 0, 1, 0, 0, 0, 0, 0, 0, 1, 0, 0,
        3, 3, 3, 2, 3, 2, 3, 3, 0, 2, 2, 2, 3, 3, 3, 0,
        3, 0, 0, 0, 2, 2, 0, 1, 2, 1, 1, 1, 0, 0, 0, 1,
        0, 3, 0, 0, 0, 0, 0, 0, 0, 0, 0, 0, 0, 0, 0, 0,
        0, 0, 0, 0, 0, 0, 0, 0, 0, 0, 0, 0, 1, 0, 0, 0,
        3, 3, 3, 3, 3, 3, 2, 1, 2, 2, 3, 3, 3, 3, 2, 0,
        2, 0, 0, 0, 2, 2, 0, 0, 2, 1, 3, 3, 0, 0, 1, 1,
        1, 1, 0, 0, 1, 0, 0, 0, 0, 0, 0, 1, 0, 0, 0, 0,
        0, 0, 0, 0, 0, 0, 0, 0, 0, 0, 1, 0, 1, 0, 0, 0,
        1, 1, 2, 3, 3, 0, 3, 3, 3, 3, 3, 3, 2, 2, 0, 2,
        0, 2, 3, 2, 3, 2, 2, 2, 2, 2, 2, 2, 1, 3, 2, 3,
        2, 0, 2, 1, 2, 2, 2, 2, 1, 1, 2, 2, 1, 2, 2, 1,
        2, 0, 0, 2, 1, 1, 0, 2, 1, 0, 0, 1, 0, 0, 0, 1,
        2, 3, 3, 1, 1, 1, 0, 1, 1, 1, 2, 3, 2, 1, 1, 0,
        0, 0, 0, 0, 0, 0, 0, 0, 0, 1, 0, 1, 0, 0, 0, 0,
        0, 1, 0, 0, 0, 0, 0, 0, 0, 0, 0, 0, 0, 0, 0, 0,
        0, 0, 0, 0, 0, 0, 0, 0, 0, 0, 0, 0, 0, 0, 0, 0,
        3, 3, 3, 2, 2, 2, 3, 2, 3, 2, 2, 1, 3, 3, 3, 0,
        2, 1, 2, 0, 2, 1, 0, 0, 1, 1, 1, 1, 1, 0, 0, 1,
        2, 1, 0, 0, 0, 0, 0, 0, 0, 0, 0, 0, 0, 0, 0, 0,
        1, 0, 0, 0, 0, 0, 0, 0, 1, 0, 2, 0, 1, 0, 0, 0,
        3, 3, 3, 2, 3, 3, 3, 3, 3, 2, 3, 1, 2, 3, 3, 1,
        2, 0, 0, 0, 0, 0, 0, 0, 3, 2, 1, 1, 0, 0, 0, 0,
        2, 0, 0, 0, 0, 0, 0, 0, 0, 0, 0, 0, 0, 0, 0, 0,
        0, 0, 0, 0, 0, 0, 0, 0, 0, 1, 0, 0, 0, 0, 0, 0,
        3, 3, 3, 2, 2, 3, 3, 2, 1, 1, 1, 1, 1, 3, 3, 0,
        3, 1, 0, 0, 1, 1, 0, 0, 3, 1, 2, 1, 0, 0, 0, 0,
        0, 3, 0, 0, 0, 0, 0, 0, 0, 0, 0, 0, 0, 0, 0, 0,
        0, 0, 0, 0, 0, 0, 0, 0, 0, 0, 1, 0, 0, 0, 0, 0,
        3, 3, 3, 2, 2, 3, 2, 2, 2, 3, 2, 1, 1, 3, 3, 0,
        3, 0, 0, 0, 0, 1, 0, 0, 3, 1, 1, 2, 0, 0, 0, 1,
        1, 0, 0, 1, 0, 0, 2, 0, 0, 0, 0, 0, 0, 0, 0, 0,
        0, 0, 0, 0, 0, 0, 0, 0, 0, 0, 0, 0, 0, 0, 0, 1,
        1, 1, 1, 3, 3, 0, 3, 3, 3, 3, 3, 2, 2, 2, 1, 2,
        0, 2, 1, 2, 2, 1, 1, 0, 1, 2, 2, 2, 2, 2, 2, 2,
        0, 0, 2, 1, 2, 1, 2, 1, 0, 1, 1, 3, 1, 2, 1, 1,
        2, 0, 0, 2, 0, 1, 0, 1, 0, 1, 0, 0, 0, 1, 0, 1,
        3, 3, 3, 1, 3, 3, 3, 0, 1, 1, 0, 2, 2, 3, 1, 0,
        3, 0, 0, 0, 1, 0, 0, 0, 1, 0, 0, 1, 0, 1, 0, 0,
        1, 0, 0, 0, 0, 0, 0, 0, 0, 0, 0, 0, 0, 0, 0, 0,
        0, 0, 0, 0, 0, 0, 0, 0, 0, 0, 0, 0, 0, 0, 0, 0,
        3, 3, 2, 0, 0, 2, 2, 1, 0, 0, 1, 0, 0, 3, 3, 1,
        3, 0, 0, 1, 1, 0, 2, 0, 3, 0, 0, 0, 2, 0, 1, 1,
        0, 1, 2, 0, 1, 2, 2, 0, 2, 2, 2, 2, 1, 0, 2, 1,
        1, 0, 2, 0, 2, 1, 2, 0, 0, 0, 0, 0, 0, 0, 0, 0,
        3, 3, 3, 1, 3, 2, 3, 2, 0, 2, 2, 2, 1, 3, 2, 0,
        2, 1, 2, 0, 1, 2, 0, 0, 1, 0, 2, 2, 0, 0, 0, 2,
        1, 0, 0, 0, 0, 0, 0, 0, 0, 0, 0, 0, 0, 0, 0, 0,
        0, 0, 0, 0, 0, 0, 0, 0, 0, 1, 1, 0, 1, 0, 0, 0,
        3, 3, 3, 0, 3, 3, 1, 1, 2, 3, 1, 0, 3, 2, 3, 0,
        3, 0, 0, 0, 1, 0, 0, 0, 1, 0, 1, 0, 0, 0, 0, 0,
        1, 2, 0, 0, 0, 0, 0, 0, 0, 0, 0, 0, 0, 0, 0, 0,
        0, 0, 0, 0, 0, 0, 0, 0, 0, 0, 0, 0, 0, 0, 0, 0,
        0, 0, 0, 3, 3, 0, 3, 3, 2, 3, 3, 2, 2, 0, 0, 0,
        0, 1, 2, 0, 1, 3, 0, 0, 0, 3, 1, 1, 0, 3, 0, 2,
        2, 0, 0, 0, 0, 0, 1, 0, 0, 0, 0, 0, 0, 0, 0, 0,
        0, 0, 0, 0, 0, 0, 0, 0, 0, 0, 0, 0, 0, 0, 0, 0,
        3, 3, 3, 1, 2, 2, 1, 0, 3, 1, 1, 1, 1, 3, 3, 2,
        3, 0, 0, 1, 0, 1, 2, 0, 2, 2, 0, 2, 2, 0, 2, 1,
        0, 2, 2, 1, 1, 1, 1, 0, 2, 1, 1, 0, 1, 1, 1, 1,
        2, 1, 2, 1, 2, 0, 1, 0, 1, 0, 0, 0, 0, 0, 0, 0,
        3, 3, 3, 0, 1, 1, 3, 0, 0, 1, 1, 0, 0, 2, 2, 0,
        3, 0, 0, 1, 1, 0, 1, 0, 0, 0, 0, 0, 2, 0, 0, 0,
        0, 3, 1, 0, 1, 0, 1, 0, 2, 0, 0, 1, 0, 1, 0, 1,
        1, 1, 2, 1, 1, 0, 2, 0, 0, 0, 0, 0, 0, 0, 0, 0,
        3, 3, 3, 0, 2, 0, 2, 0, 1, 1, 1, 0, 0, 3, 3, 0,
        2, 0, 0, 1, 0, 0, 2, 1, 1, 0, 1, 0, 1, 0, 1, 0,
        0, 2, 0, 1, 2, 0, 2, 0, 2, 1, 1, 0, 1, 0, 2, 1,
        1, 0, 2, 1, 1, 0, 1, 0, 0, 0, 1, 1, 0, 0, 0, 0,
        3, 2, 3, 0, 1, 0, 0, 0, 0, 0, 0, 0, 0, 1, 2, 0,
        1, 0, 0, 1, 0, 0, 1, 0, 0, 0, 0, 0, 2, 0, 0, 0,
        0, 0, 1, 1, 0, 0, 1, 0, 1, 0, 0, 1, 0, 0, 0, 2,
        1, 0, 1, 0, 2, 0, 0, 0, 0, 0, 0, 0, 0, 0, 0, 0,
        3, 3, 3, 0, 0, 2, 3, 0, 0, 1, 0, 1, 0, 2, 3, 2,
        3, 0, 0, 1, 3, 0, 2, 1, 0, 0, 0, 0, 2, 0, 1, 0,
        0, 2, 1, 0, 0, 1, 1, 0, 2, 1, 0, 0, 1, 0, 0, 1,
        1, 0, 1, 1, 2, 0, 1, 0, 0, 0, 0, 1, 0, 0, 0, 0,
        3, 2, 2, 0, 0, 1, 1, 0, 0, 0, 0, 0, 0, 3, 1, 1,
        1, 0, 0, 0, 0, 0, 1, 0, 0, 0, 0, 0, 2, 0, 1, 0,
        0, 1, 0, 0, 0, 0, 0, 0, 1, 0, 0, 0, 0, 0, 0, 0,
        1, 0, 0, 0, 1, 0, 1, 0, 0, 0, 0, 0, 0, 0, 0, 0,
        0, 0, 0, 3, 3, 0, 2, 3, 2, 2, 1, 2, 2, 1, 1, 2,
        0, 1, 3, 2, 2, 2, 0, 0, 2, 2, 0, 0, 0, 1, 2, 1,
        3, 0, 2, 1, 1, 0, 1, 1, 1, 0, 1, 2, 2, 2, 1, 1,
        2, 0, 0, 0, 0, 1, 0, 1, 1, 0, 0, 0, 0, 0, 0, 0,
        0, 1, 1, 2, 3, 0, 3, 3, 3, 2, 2, 2, 2, 1, 0, 1,
        0, 1, 0, 1, 2, 2, 0, 0, 2, 2, 1, 3, 1, 1, 2, 1,
        0, 0, 1, 1, 2, 0, 1, 1, 0, 0, 1, 2, 0, 2, 1, 1,
        2, 0, 0, 1, 0, 0, 0, 1, 0, 1, 0, 1, 0, 0, 0, 0,
        3, 3, 2, 0, 0, 3, 1, 0, 0, 0, 0, 0, 0, 3, 2, 1,
        2, 0, 0, 1, 0, 0, 2, 0, 0, 0, 0, 0, 2, 0, 1, 0,
        0, 2, 1, 1, 0, 0, 1, 0, 1, 2, 0, 0, 1, 1, 0, 0,
        2, 1, 1, 1, 1, 0, 2, 0, 0, 0, 0, 0, 0, 0, 0, 0,
        3, 3, 2, 0, 0, 1, 0, 0, 0, 0, 1, 0, 0, 3, 3, 2,
        2, 0, 0, 1, 0, 0, 2, 0, 1, 0, 0, 0, 2, 0, 1, 0,
        0, 0, 1, 1, 0, 0, 2, 0, 2, 1, 0, 0, 1, 1, 2, 1,
        2, 0, 2, 1, 2, 1, 1, 1, 0, 0, 1, 1, 0, 0, 0, 0,
        3, 3, 2, 0, 0, 2, 2, 0, 0, 0, 1, 1, 0, 2, 2, 1,
        3, 1, 0, 1, 0, 1, 2, 0, 0, 0, 0, 0, 1, 0, 1, 0,
        0, 1, 1, 0, 0, 0, 0, 0, 1, 0, 0, 1, 0, 0, 0, 1,
        1, 0, 1, 0, 1, 0, 0, 0, 0, 0, 0, 0, 0, 0, 0, 0,
        3, 3, 3, 2, 0, 0, 0, 1, 0, 0, 1, 0, 0, 2, 3, 1,
        2, 0, 0, 1, 0, 0, 2, 0, 0, 0, 1, 0, 2, 0, 2, 0,
        0, 1, 1, 2, 2, 1, 2, 0, 2, 1, 1, 0, 0, 1, 1, 0,
        1, 1, 1, 1, 2, 1, 1, 0, 0, 0, 0, 0, 0, 0, 0, 0,
        3, 3, 3, 0, 2, 1, 2, 1, 0, 0, 1, 1, 0, 3, 3, 1,
        2, 0, 0, 1, 0, 0, 2, 0, 2, 0, 1, 1, 2, 0, 0, 0,
        0, 0, 1, 1, 1, 1, 2, 0, 1, 1, 0, 1, 1, 1, 1, 0,
        0, 0, 1, 1, 1, 0, 1, 0, 0, 0, 1, 0, 0, 0, 0, 0,
        3, 3, 3, 0, 2, 2, 3, 2, 0, 0, 1, 0, 0, 2, 3, 1,
        0, 0, 0, 0, 0, 0, 2, 0, 2, 0, 0, 0, 2, 0, 0, 0,
        0, 1, 1, 0, 0, 0, 1, 0, 0, 1, 0, 1, 1, 0, 1, 0,
        1, 1, 1, 0, 1, 0, 0, 0, 0, 0, 0, 0, 0, 0, 0, 0,
        3, 2, 3, 0, 0, 0, 0, 0, 0, 0, 1, 0, 0, 2, 2, 2,
        2, 0, 0, 1, 0, 0, 2, 0, 0, 0, 0, 0, 2, 0, 1, 0,
        0, 0, 2, 1, 1, 0, 1, 0, 2, 1, 1, 0, 0, 1, 1, 2,
        1, 0, 2, 0, 2, 0, 1, 0, 0, 0, 2, 0, 0, 0, 0, 0,
        0, 0, 0, 2, 2, 0, 2, 1, 1, 1, 1, 2, 2, 0, 0, 1,
        0, 1, 0, 0, 1, 3, 0, 0, 0, 0, 1, 0, 0, 2, 1, 0,
        0, 0, 1, 0, 1, 0, 0, 0, 0, 0, 2, 1, 0, 1, 0, 0,
        0, 0, 0, 0, 0, 0, 0, 2, 0, 0, 0, 0, 0, 0, 0, 0,
        2, 0, 0, 2, 3, 0, 2, 3, 1, 2, 2, 0, 2, 0, 0, 2,
        0, 2, 1, 1, 1, 2, 1, 0, 0, 1, 2, 1, 1, 2, 1, 0,
        1, 0, 2, 0, 1, 0, 1, 1, 0, 0, 2, 2, 1, 2, 1, 1,
        2, 0, 0, 1, 0, 0, 0, 0, 0, 0, 0, 0, 0, 0, 0, 0,
        3, 3, 3, 0, 2, 1, 2, 0, 0, 0, 1, 0, 0, 3, 2, 0,
        1, 0, 0, 1, 0, 0, 2, 0, 0, 0, 1, 2, 1, 0, 1, 0,
        0, 0, 0, 0, 1, 0, 1, 0, 0, 1, 0, 0, 0, 0, 1, 0,
        1, 0, 1, 1, 1, 0, 1, 0, 0, 0, 0, 0, 0, 0, 0, 0,
        0, 0, 0, 2, 2, 0, 2, 2, 1, 1, 0, 1, 1, 1, 1, 1,
        0, 0, 1, 2, 1, 1, 1, 0, 1, 0, 0, 0, 1, 1, 1, 1,
        0, 0, 2, 1, 0, 1, 1, 1, 0, 1, 1, 2, 1, 2, 1, 1,
        2, 0, 1, 1, 2, 1, 0, 2, 0, 0, 0, 0, 0, 0, 0, 0,
        3, 2, 2, 0, 0, 2, 0, 0, 0, 0, 0, 0, 0, 2, 2, 0,
        2, 0, 0, 1, 0, 0, 2, 0, 0, 0, 0, 0, 2, 0, 0, 0,
        0, 2, 1, 0, 0, 0, 0, 0, 1, 0, 0, 0, 0, 0, 0, 0,
        1, 0, 0, 0, 1, 0, 1, 0, 0, 0, 0, 0, 0, 0, 0, 0,
        0, 0, 0, 3, 2, 0, 2, 2, 0, 1, 1, 0, 1, 0, 0, 1,
        0, 0, 0, 1, 0, 1, 0, 0, 0, 0, 0, 1, 0, 0, 0, 0,
        2, 0, 1, 0, 1, 0, 1, 1, 0, 0, 1, 2, 0, 1, 0, 1,
        1, 0, 0, 1, 0, 1, 0, 2, 0, 0, 0, 0, 0, 0, 0, 0,
        2, 2, 2, 0, 1, 1, 0, 0, 0, 1, 0, 0, 0, 1, 2, 0,
        1, 0, 0, 1, 0, 0, 1, 0, 0, 0, 0, 1, 2, 0, 1, 0,
        0, 0, 1, 0, 0, 0, 1, 0, 0, 1, 0, 0, 0, 0, 0, 0,
        1, 0, 1, 0, 2, 0, 0, 0, 0, 0, 0, 0, 0, 0, 0, 0,
        2, 2, 2, 2, 1, 0, 1, 1, 1, 0, 0, 0, 0, 1, 2, 0,
        0, 1, 0, 0, 0, 1, 0, 0, 1, 0, 0, 0, 0, 0, 0, 0,
        0, 0, 0, 0, 0, 0, 0, 0, 0, 0, 0, 0, 0, 0, 0, 0,
        0, 0, 0, 0, 0, 0, 0, 0, 2, 0, 0, 0, 0, 0, 0, 0,
        1, 1, 2, 0, 1, 0, 0, 0, 1, 0, 1, 0, 0, 0, 1, 0,
        0, 1, 0, 0, 0, 0, 0, 0, 0, 1, 0, 0, 0, 0, 0, 0,
        0, 0, 0, 0, 0, 0, 0, 0, 0, 0, 0, 0, 0, 0, 0, 0,
        0, 0, 0, 1, 0, 0, 0, 0, 0, 2, 0, 0, 0, 0, 0, 1,
        0, 0, 1, 2, 2, 0, 2, 1, 2, 1, 1, 2, 2, 0, 0, 0,
        0, 1, 0, 0, 1, 1, 0, 0, 2, 0, 0, 0, 0, 1, 0, 0,
        0, 0, 0, 0, 0, 0, 0, 0, 0, 0, 0, 0, 0, 0, 0, 0,
        0, 0, 0, 0, 0, 0, 0, 0, 0, 0, 0, 0, 1, 0, 0, 0,
        2, 2, 2, 0, 0, 0, 1, 0, 0, 0, 0, 0, 0, 2, 2, 1,
        1, 0, 0, 0, 0, 0, 1, 0, 0, 0, 0, 0, 0, 0, 0, 0,
        0, 0, 0, 0, 1, 0, 0, 0, 1, 0, 0, 0, 0, 0, 0, 0,
        0, 0, 0, 0, 0, 0, 0, 0, 0, 0, 0, 0, 0, 0, 0, 0,
        0, 0, 0, 1, 1, 0, 0, 0, 1, 0, 0, 0, 1, 0, 0, 0,
        0, 0, 0, 0, 1, 1, 0, 0, 0, 0, 0, 0, 0, 0, 0, 0,
        0, 0, 0, 0, 0, 0, 0, 0, 0, 0, 0, 0, 0, 0, 0, 0,
        0, 0, 0, 0, 0, 0, 0, 0, 0, 0, 0, 0, 0, 0, 0, 0,
        2, 2, 2, 0, 1, 0, 1, 0, 0, 0, 0, 0, 0, 1, 1, 0,
        0, 0, 0, 0, 0, 0, 1, 0, 1, 0, 0, 0, 0, 0, 0, 0,
        0, 0, 0, 0, 0, 0, 0, 0, 0, 0, 0, 0, 0, 0, 0, 0,
        0, 0, 0, 0, 0, 0, 0, 0, 1, 0, 0, 0, 0, 1, 0, 0,
        0, 0, 0, 0, 0, 0, 0, 0, 0, 0, 0, 0, 0, 0, 0, 0,
        0, 0, 0, 0, 0, 0, 0, 0, 0, 0, 0, 0, 0, 0, 0, 0,
        0, 0, 0, 0, 0, 0, 0, 0, 0, 0, 0, 0, 0, 0, 0, 0,
        0, 0, 0, 0, 0, 0, 0, 0, 0, 0, 0, 0, 0, 0, 0, 0,
        0, 0, 1, 0, 0, 0, 0, 0, 0, 0, 0, 0, 0, 2, 2, 0,
        0, 0, 0, 0, 0, 0, 0, 0, 0, 0, 0, 0, 0, 0, 0, 0,
        0, 0, 0, 0, 0, 0, 0, 0, 0, 0, 0, 0, 0, 0, 0, 0,
        0, 0, 0, 0, 0, 0, 0, 0, 0, 0, 0, 0, 0, 0, 0, 0,
    ];
    match SBStateMachineModel::new(
        slice_to_vec(order_map.as_slice()),
        slice_to_vec(matrix.as_slice()),
        970290,
        1000000,
        true,
        "ISO-8859-9".to_owned(),
        "Turkish".to_owned(),
    ) {
        Some(m) => m,
        None => fallback_sb_model(true, "ISO-8859-9".to_owned(), "Turkish".to_owned()),
    }
}

} // verus!
