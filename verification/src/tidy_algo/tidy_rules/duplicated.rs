//! The "duplicated" rule in its inclusive form: every file with the same hash,
//! the file itself included, counts as a duplicate.
use vstd::prelude::*;

use crate::file_info::{
    clone_file, clone_score, file_model, files_model, lemma_files_model_push, score_model,
    FileInfo, FileInfoModel, TidyScore, TidyScoreModel,
};
use crate::tidy_rules::duplicated::{merge_duplicated, merge_duplicated_spec};

verus! {

/// The files of `all` with the same hash as `candidate`, in order.
pub open spec fn same_hash_spec(candidate: FileInfoModel, all: Seq<FileInfoModel>) -> Seq<FileInfoModel> {
    all.filter(|f: FileInfoModel| f.hash == candidate.hash)
}

/// The files of `all_files` with the same hash as `candidate`, in order:
/// these are the pairs this form of the rule records.
pub fn same_hash_files(candidate: &FileInfo, all_files: &Vec<FileInfo>) -> (res: Vec<FileInfo>)
    ensures
        files_model(res@) == same_hash_spec(file_model(*candidate), files_model(all_files@)),
{
    let ghost c = file_model(*candidate);
    let ghost pred = |f: FileInfoModel| f.hash == c.hash;
    let mut res: Vec<FileInfo> = Vec::new();
    let mut i: usize = 0;
    while i < all_files.len()
        invariant
            i <= all_files.len(),
            c == file_model(*candidate),
            pred == (|f: FileInfoModel| f.hash == c.hash),
            files_model(res@) == files_model(all_files@.subrange(0, i as int)).filter(pred),
        decreases all_files.len() - i,
    {
        let ghost pre = all_files@.subrange(0, i as int);
        assert(all_files@.subrange(0, i + 1) =~= pre.push(all_files@[i as int]));
        proof {
            lemma_files_model_push(pre, all_files@[i as int]);
            files_model(pre).lemma_filter_push(file_model(all_files@[i as int]), pred);
        }
        let f = &all_files[i];
        if f.eq(candidate) {
            let copy = clone_file(f);
            proof {
                lemma_files_model_push(res@, copy);
            }
            res.push(copy);
        }
        i = i + 1;
    }
    assert(all_files@.subrange(0, all_files@.len() as int) =~= all_files@);
    res
}

/// The rule applied to `candidate`: nothing found when the files could not
/// be read from the database (`recorded` is `None`); otherwise the
/// candidate's score with the duplicates that were recorded added.
pub fn duplicated(candidate: &FileInfo, recorded: Option<Vec<FileInfo>>) -> (res: TidyScore)
    ensures
        score_model(res) == (match recorded {
            None => TidyScoreModel { misnamed: false, unused: false, duplicated: None },
            Some(v) => merge_duplicated_spec(file_model(*candidate).tidy_score, files_model(v@)),
        }),
{
    match recorded {
        None => TidyScore::new(false, false, None),
        Some(found) => {
            let current = match &candidate.tidy_score {
                Some(s) => Some(clone_score(s)),
                None => None,
            };
            merge_duplicated(current, found)
        },
    }
}

} // verus!
