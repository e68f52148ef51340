//! What the answers of `git` mean.

use vstd::prelude::*;
use vstd::string::*;

use crate::errors::{never, never_error, ErrorCode, KernelError};
use crate::text::{
    from_lossy, lossy_text, pieces, same_text, split_on, texts, trim, trimmed,
};

verus! {

/// Whether the answer to `git rev-parse --is-inside-work-tree` is yes.
pub fn tells_work_tree(success: bool, stdout: &[u8]) -> (r: bool)
    ensures
        r == (success && trimmed(lossy_text(stdout@)) == "true"@),
{
    success && same_text(trim(from_lossy(stdout).as_str()).as_str(), "true")
}

/// The error of a `git` command that failed.
pub open spec fn git_failure(op: Seq<char>, detail: Seq<char>) -> crate::errors::ErrorView {
    never(ErrorCode::Unavailable, "git "@ + op + " failed: "@ + trimmed(detail))
}

/// The error of a `git` command that failed.
pub fn git_error(op: &str, detail: &str) -> (r: KernelError)
    ensures
        r@ == git_failure(op@, detail@),
{
    let mut message = "git ".to_owned();
    message.append(op);
    message.append(" failed: ");
    message.append(trim(detail).as_str());
    never_error(ErrorCode::Unavailable, message.as_str())
}

/// The revision that `git rev-parse HEAD` tells.
pub fn head_of(success: bool, stdout: &[u8], stderr: &[u8]) -> (r: Result<String, KernelError>)
    ensures
        match r {
            Ok(rev) => success && rev@ == trimmed(lossy_text(stdout@)),
            Err(e) => !success && e@ == git_failure("rev-parse"@, lossy_text(stderr@)),
        },
{
    if success {
        Ok(trim(from_lossy(stdout).as_str()))
    } else {
        Err(git_error("rev-parse", from_lossy(stderr).as_str()))
    }
}

/// The pieces that are not empty.
pub open spec fn nonempty(parts: Seq<Seq<char>>) -> Seq<Seq<char>>
    decreases parts.len(),
{
    if parts.len() == 0 {
        Seq::empty()
    } else if parts.last().len() == 0 {
        nonempty(parts.drop_last())
    } else {
        nonempty(parts.drop_last()).push(parts.last())
    }
}

/// The files that `git ls-files -z` tells.
pub fn files_of(success: bool, stdout: &[u8], stderr: &[u8]) -> (r: Result<Vec<String>, KernelError>)
    ensures
        match r {
            Ok(files) => success && texts(files@) == nonempty(pieces(lossy_text(stdout@), '\0')),
            Err(e) => !success && e@ == git_failure("ls-files"@, lossy_text(stderr@)),
        },
{
    if success {
        Ok(paths_in(from_lossy(stdout).as_str()))
    } else {
        Err(git_error("ls-files", from_lossy(stderr).as_str()))
    }
}

/// The files that `git diff --name-only -z` tells.
pub fn changed_of(success: bool, stdout: &[u8], stderr: &[u8]) -> (r: Result<Vec<String>, KernelError>)
    ensures
        match r {
            Ok(files) => success && texts(files@) == nonempty(pieces(lossy_text(stdout@), '\0')),
            Err(e) => !success && e@ == git_failure("diff"@, lossy_text(stderr@)),
        },
{
    if success {
        Ok(paths_in(from_lossy(stdout).as_str()))
    } else {
        Err(git_error("diff", from_lossy(stderr).as_str()))
    }
}

/// The paths in a list, each with a zero character behind it.
pub fn paths_in(list: &str) -> (r: Vec<String>)
    ensures
        texts(r@) == nonempty(pieces(list@, '\0')),
{
    let parts = split_on(list, '\0');
    let ghost views = texts(parts@);
    let mut out: Vec<String> = Vec::new();
    let mut i: usize = 0;
    assert(texts(out@) =~= Seq::empty());
    while i < parts.len()
        invariant
            i <= parts.len(),
            views == texts(parts@),
            texts(out@) == nonempty(views.take(i as int)),
        decreases parts.len() - i,
    {
        assert(views.take(i + 1).drop_last() =~= views.take(i as int));
        assert(views.take(i + 1).last() == parts@[i as int]@);
        if parts[i].as_str().unicode_len() > 0 {
            let file = parts[i].clone();
            assert(texts(out@.push(file)) =~= texts(out@).push(file@));
            out.push(file);
        }
        i += 1;
    }
    assert(views.take(parts.len() as int) =~= views);
    out
}

} // verus!
