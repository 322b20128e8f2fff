//! The "misnamed" rule in its empty form: it finds nothing, whatever the
//! file.
use vstd::prelude::*;

use crate::file_info::{score_model, FileInfo, TidyScore, TidyScoreModel};

verus! {

/// Finds nothing, whatever the file.
pub fn missnamed(file_info: &FileInfo) -> (res: TidyScore)
    ensures
        score_model(res) == (TidyScoreModel { misnamed: false, unused: false, duplicated: None }),
{
    TidyScore::new(false, false, None)
}

} // verus!
