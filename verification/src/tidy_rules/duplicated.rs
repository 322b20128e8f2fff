//! The "duplicated" rule: other files with the same content hash are
//! duplicates of a file.
use vstd::prelude::*;

use crate::file_info::{
    clone_file, clone_score, file_model, files_model, lemma_files_model_add,
    lemma_files_model_push, paths_equal, same_path, score_model, FileInfo, FileInfoModel, TidyScore,
    TidyScoreModel,
};

verus! {

/// `f` duplicates `candidate`: same hash, another path (as `Path` compares
/// paths).
pub open spec fn is_duplicate_of(f: FileInfoModel, candidate: FileInfoModel) -> bool {
    f.hash == candidate.hash && !same_path(f.path, candidate.path)
}

/// The files of `all` that duplicate `candidate`, in order.
pub open spec fn duplicates_spec(candidate: FileInfoModel, all: Seq<FileInfoModel>) -> Seq<FileInfoModel> {
    all.filter(|f: FileInfoModel| is_duplicate_of(f, candidate))
}

/// The files of `all_files` (all files known to the database) that
/// duplicate `candidate`, in order: these are the pairs the rule records.
/// None of them has the candidate's path text.
pub fn duplicate_candidates(candidate: &FileInfo, all_files: &Vec<FileInfo>) -> (res: Vec<FileInfo>)
    ensures
        files_model(res@) == duplicates_spec(file_model(*candidate), files_model(all_files@)),
        forall|k: int| 0 <= k < res@.len() ==> (#[trigger] res@[k]).path@ != candidate.path@,
{
    let ghost c = file_model(*candidate);
    let ghost pred = |f: FileInfoModel| is_duplicate_of(f, c);
    let mut res: Vec<FileInfo> = Vec::new();
    let mut i: usize = 0;
    while i < all_files.len()
        invariant
            i <= all_files.len(),
            c == file_model(*candidate),
            forall|k: int| 0 <= k < res@.len() ==> (#[trigger] res@[k]).path@ != candidate.path@,
            pred == (|f: FileInfoModel| is_duplicate_of(f, c)),
            files_model(res@) == files_model(all_files@.subrange(0, i as int)).filter(pred),
        decreases all_files.len() - i,
    {
        let ghost pre = all_files@.subrange(0, i as int);
        assert(all_files@.subrange(0, i + 1) =~= pre.push(all_files@[i as int]));
        proof {
            lemma_files_model_push(pre, all_files@[i as int]);
            files_model(pre).lemma_filter_push(file_model(all_files@[i as int]), pred);
        }
        let f = &all_files[i];
        if f.eq(candidate) && !paths_equal(f.path.as_str(), candidate.path.as_str()) {
            let copy = clone_file(f);
            proof {
                lemma_files_model_push(res@, copy);
            }
            res.push(copy);
        }
        i = i + 1;
    }
    assert(all_files@.subrange(0, all_files@.len() as int) =~= all_files@);
    res
}

/// A score with `found` added to its duplicates.
pub open spec fn merge_duplicated_spec(current: Option<TidyScoreModel>, found: Seq<FileInfoModel>) -> TidyScoreModel {
    match current {
        Some(score) => match score.duplicated {
            Some(d) => TidyScoreModel { duplicated: Some(d + found), ..score },
            None => TidyScoreModel { duplicated: Some(found), ..score },
        },
        None => TidyScoreModel { misnamed: false, unused: false, duplicated: Some(found) },
    }
}

/// The score after the duplicates `found` are added: to the existing list
/// of duplicates, or as the list when there was none; a file without a
/// score gets one with nothing else found.
pub fn merge_duplicated(current: Option<TidyScore>, found: Vec<FileInfo>) -> (res: TidyScore)
    ensures
        score_model(res) == merge_duplicated_spec(
            match current {
                Some(s) => Some(score_model(s)),
                None => None,
            },
            files_model(found@),
        ),
{
    let mut found = found;
    match current {
        Some(mut score) => match score.duplicated {
            Some(mut duplicated) => {
                proof {
                    lemma_files_model_add(duplicated@, found@);
                }
                duplicated.append(&mut found);
                score.duplicated = Some(duplicated);
                score
            },
            None => {
                score.duplicated = Some(found);
                score
            },
        },
        None => TidyScore::new(false, false, Some(found)),
    }
}

/// The score the rule gives: nothing found when the files could not be read
/// from the database (`recorded` is `None`); otherwise the candidate's score
/// with the duplicates that were recorded in the database added.
pub open spec fn aply_duplicated_spec(candidate: FileInfoModel, recorded: Option<Seq<FileInfoModel>>) -> TidyScoreModel {
    match recorded {
        None => TidyScoreModel { misnamed: false, unused: false, duplicated: None },
        Some(found) => merge_duplicated_spec(candidate.tidy_score, found),
    }
}

/// The "duplicated" rule applied to `candidate`. The database work is done
/// by the caller: it reads all files (`None` when that fails), takes their
/// [`duplicate_candidates`], records each pair, and hands in those whose
/// recording succeeded, in order.
pub fn aply_duplicated(candidate: &FileInfo, recorded: Option<Vec<FileInfo>>) -> (res: TidyScore)
    ensures
        score_model(res) == aply_duplicated_spec(
            file_model(*candidate),
            match recorded {
                Some(v) => Some(files_model(v@)),
                None => None,
            },
        ),
{
    match recorded {
        None => TidyScore::new(false, false, None),
        Some(found) => {
            let current = match &candidate.tidy_score {
                Some(s) => Some(clone_score(s)),
                None => None,
            };
            merge_duplicated(current, found)
        },
    }
}

/// Every duplicate found has the candidate's hash and another path, and
/// every file that has the candidate's hash and another path is found.
pub proof fn lemma_duplicates_are_exactly_same_hash_elsewhere(candidate: FileInfoModel, all: Seq<FileInfoModel>, f: FileInfoModel)
    ensures
        duplicates_spec(candidate, all).contains(f) <==> (all.contains(f) && f.hash
            == candidate.hash && !same_path(f.path, candidate.path)),
{
    let pred = |x: FileInfoModel| is_duplicate_of(x, candidate);
    if duplicates_spec(candidate, all).contains(f) {
        let i = choose|i: int| 0 <= i < all.filter(pred).len() && all.filter(pred)[i] == f;
        all.lemma_filter_pred(pred, i);
        all.lemma_filter_contains_rev(pred, f);
    }
    if all.contains(f) && f.hash == candidate.hash && !same_path(f.path, candidate.path) {
        let i = choose|i: int| 0 <= i < all.len() && all[i] == f;
        all.lemma_filter_contains(pred, i);
    }
}

/// The duplicated rule only adds duplicates: when the duplicates recorded
/// in the database are known, a candidate that had a score keeps its
/// misnamed and unused findings, and its list of duplicates becomes the one
/// it had (or none) followed by those found; a candidate without a score
/// gets one with no other finding. When they are not known, nothing is
/// found.
pub proof fn lemma_duplicated_rule_only_adds_duplicates(candidate: FileInfoModel, recorded: Option<Seq<FileInfoModel>>)
    ensures
        ({
            let res = aply_duplicated_spec(candidate, recorded);
            match recorded {
                None => !res.misnamed && !res.unused && res.duplicated is None,
                Some(found) => match candidate.tidy_score {
                    Some(score) => {
                        &&& res.misnamed == score.misnamed
                        &&& res.unused == score.unused
                        &&& res.duplicated == Some(
                            match score.duplicated {
                                Some(d) => d,
                                None => Seq::<FileInfoModel>::empty(),
                            } + found,
                        )
                    },
                    None => !res.misnamed && !res.unused && res.duplicated == Some(found),
                },
            }
        }),
{
    if let Some(found) = recorded {
        if let Some(score) = candidate.tidy_score {
            if score.duplicated is None {
                assert(Seq::<FileInfoModel>::empty() + found =~= found);
            }
        }
    }
}

} // verus!
