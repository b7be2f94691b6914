//! A model of the file store.
//!
//! The library does not touch the disk; it asks for changes. This module
//! says what those requests mean, on a store that maps each path to the text
//! of the file there, and states of the write of a cache file what it owes
//! to that meaning: that the file holds the new content afterwards, and that
//! it holds the old one for as long as the write has not come to its last
//! step.

use crate::cache::{
    file_content, file_text, lemma_temp_is_not_target, lemma_written_text_reads_back, write_plan,
};
use crate::paths::{lemma_cache_paths_differ, CacheFile};
use crate::session::{touches, RequestView};
use crate::text::trimmed;
use vstd::prelude::*;

verus! {

/// The store after `request` was performed with success. A request that
/// cannot succeed (to write to a file that is not there, or to rename one)
/// and a request that changes nothing leave the store as it is.
pub open spec fn performed(
    files: Map<Seq<char>, Seq<char>>,
    request: RequestView,
) -> Map<Seq<char>, Seq<char>> {
    match request {
        RequestView::CreateFile { path } => files.insert(path, Seq::empty()),
        RequestView::WriteText { path, text } => if files.dom().contains(path) {
            files.insert(path, files[path] + text)
        } else {
            files
        },
        RequestView::Rename { from, to } => if files.dom().contains(from) {
            files.remove(from).insert(to, files[from])
        } else {
            files
        },
        RequestView::RemoveFile { path } => files.remove(path),
        _ => files,
    }
}

/// Whether `after` is a store that may be found when `request` was begun on
/// `files` and not known to have ended: nothing may have happened, all of
/// it, or, for a write, a part of the text may have been added. A rename
/// happens at once or not at all.
pub open spec fn cut_short(
    files: Map<Seq<char>, Seq<char>>,
    request: RequestView,
    after: Map<Seq<char>, Seq<char>>,
) -> bool {
    ||| after == files
    ||| after == performed(files, request)
    ||| request matches RequestView::WriteText { path, text } && files.dom().contains(path)
        && exists|n: int| 0 <= n <= text.len() && after == files.insert(
            path,
            files[path] + #[trigger] text.subrange(0, n),
        )
}

/// The store after the requests were performed with success, one after the
/// other.
pub open spec fn performed_all(
    files: Map<Seq<char>, Seq<char>>,
    requests: Seq<RequestView>,
) -> Map<Seq<char>, Seq<char>>
    decreases requests.len(),
{
    if requests.len() == 0 {
        files
    } else {
        performed(performed_all(files, requests.drop_last()), requests.last())
    }
}

/// Whether two stores agree at `path`: the file is in both or in neither,
/// with the same text.
pub open spec fn same_at(
    a: Map<Seq<char>, Seq<char>>,
    b: Map<Seq<char>, Seq<char>>,
    path: Seq<char>,
) -> bool {
    &&& a.dom().contains(path) == b.dom().contains(path)
    &&& a.dom().contains(path) ==> a[path] == b[path]
}

/// A request that does not touch a file leaves it as it is, also when the
/// request is cut short.
pub proof fn lemma_untouched_stays(
    files: Map<Seq<char>, Seq<char>>,
    request: RequestView,
    after: Map<Seq<char>, Seq<char>>,
    path: Seq<char>,
)
    requires
        !touches(request, path),
        cut_short(files, request, after),
    ensures
        same_at(files, after, path),
{
}

/// The first `k` requests of a write, up to three, leave the file that is
/// written as it was. From the second on the temporary file is there, empty
/// at first and then with the text that is written.
pub proof fn lemma_write_begun(
    files: Map<Seq<char>, Seq<char>>,
    cache_dir: Seq<char>,
    file: CacheFile,
    content: Seq<char>,
    k: int,
)
    requires
        0 <= k <= 3,
    ensures
        ({
            let begun = performed_all(
                files,
                write_plan(cache_dir, file, content).subrange(0, k),
            );
            let temp = file.temp_path(cache_dir);
            &&& same_at(files, begun, file.path(cache_dir))
            &&& k >= 2 ==> begun.dom().contains(temp)
            &&& k == 2 ==> begun[temp] == Seq::<char>::empty()
            &&& k == 3 ==> begun[temp] == file_text(content)
        }),
    decreases k,
{
    let plan = write_plan(cache_dir, file, content);
    lemma_temp_is_not_target(cache_dir, file);
    if k > 0 {
        lemma_write_begun(files, cache_dir, file, content, k - 1);
        let begun = plan.subrange(0, k);
        assert(begun.drop_last() =~= plan.subrange(0, k - 1));
        assert(begun.last() == plan[k - 1]);
        if k == 3 {
            assert(Seq::<char>::empty() + file_text(content) =~= file_text(content));
        }
    }
}

/// A write that is cut short before its last step, the rename, leaves the
/// file that is written as it was: with its old content, or absent, and
/// never with a part of the new one.
pub proof fn lemma_write_cut_short(
    files: Map<Seq<char>, Seq<char>>,
    cache_dir: Seq<char>,
    file: CacheFile,
    content: Seq<char>,
    k: int,
    after: Map<Seq<char>, Seq<char>>,
)
    requires
        0 <= k < 3,
        cut_short(
            performed_all(files, write_plan(cache_dir, file, content).subrange(0, k)),
            write_plan(cache_dir, file, content)[k],
            after,
        ),
    ensures
        same_at(files, after, file.path(cache_dir)),
{
    let plan = write_plan(cache_dir, file, content);
    lemma_write_begun(files, cache_dir, file, content, k);
    lemma_temp_is_not_target(cache_dir, file);
    lemma_untouched_stays(
        performed_all(files, plan.subrange(0, k)),
        plan[k],
        after,
        file.path(cache_dir),
    );
}

/// The rename, the last step of a write, either leaves the file as it was
/// or puts the whole new content in its place.
pub proof fn lemma_write_ends_at_once(
    files: Map<Seq<char>, Seq<char>>,
    cache_dir: Seq<char>,
    file: CacheFile,
    content: Seq<char>,
    after: Map<Seq<char>, Seq<char>>,
)
    requires
        cut_short(
            performed_all(files, write_plan(cache_dir, file, content).subrange(0, 3)),
            write_plan(cache_dir, file, content)[3],
            after,
        ),
    ensures
        same_at(files, after, file.path(cache_dir)) || (after.dom().contains(file.path(cache_dir))
            && after[file.path(cache_dir)] == file_text(content)),
{
    lemma_write_begun(files, cache_dir, file, content, 3);
    lemma_temp_is_not_target(cache_dir, file);
}

/// After a write that has made all its steps, the file holds the content
/// without the white space at its ends and a line feed, and what is then
/// read from it is the content without the white space at its ends. This
/// holds of each of the three files, whatever the store held before.
pub proof fn lemma_write_then_read(
    files: Map<Seq<char>, Seq<char>>,
    cache_dir: Seq<char>,
    file: CacheFile,
    content: Seq<char>,
)
    ensures
        performed_all(files, write_plan(cache_dir, file, content)).dom().contains(
            file.path(cache_dir),
        ),
        performed_all(files, write_plan(cache_dir, file, content))[file.path(cache_dir)]
            == file_text(content),
        file_content(
            Some(performed_all(files, write_plan(cache_dir, file, content))[file.path(cache_dir)]),
        ) == Some(trimmed(content)),
{
    let plan = write_plan(cache_dir, file, content);
    lemma_write_begun(files, cache_dir, file, content, 3);
    assert(plan.drop_last() =~= plan.subrange(0, 3));
    lemma_written_text_reads_back(content);
}

/// Performing two lists of requests in a row is performing them one list
/// after the other.
pub proof fn lemma_performed_in_a_row(
    files: Map<Seq<char>, Seq<char>>,
    first: Seq<RequestView>,
    second: Seq<RequestView>,
)
    ensures
        performed_all(files, first + second) == performed_all(
            performed_all(files, first),
            second,
        ),
    decreases second.len(),
{
    if second.len() == 0 {
        assert(first + second =~= first);
    } else {
        lemma_performed_in_a_row(files, first, second.drop_last());
        assert((first + second).drop_last() =~= first + second.drop_last());
        assert((first + second).last() == second.last());
    }
}

/// Requests that do not touch a file leave it as it is.
pub proof fn lemma_untouched_by_all(
    files: Map<Seq<char>, Seq<char>>,
    requests: Seq<RequestView>,
    path: Seq<char>,
)
    requires
        forall|i: int| 0 <= i < requests.len() ==> !touches(#[trigger] requests[i], path),
    ensures
        same_at(files, performed_all(files, requests), path),
    decreases requests.len(),
{
    if requests.len() > 0 {
        let before = requests.drop_last();
        assert forall|i: int| 0 <= i < before.len() implies !touches(
            #[trigger] before[i],
            path,
        ) by {
            assert(before[i] == requests[i]);
        }
        lemma_untouched_by_all(files, before, path);
        assert(!touches(requests.last(), path));
        lemma_untouched_stays(
            performed_all(files, before),
            requests.last(),
            performed_all(files, requests),
            path,
        );
    }
}

/// A write of one cache file, whole or begun, leaves the other two cache
/// files as they are.
pub proof fn lemma_write_leaves_other_files(
    files: Map<Seq<char>, Seq<char>>,
    cache_dir: Seq<char>,
    file: CacheFile,
    content: Seq<char>,
    k: int,
    other: CacheFile,
)
    requires
        0 <= k <= 4,
        other != file,
    ensures
        same_at(
            files,
            performed_all(files, write_plan(cache_dir, file, content).subrange(0, k)),
            other.path(cache_dir),
        ),
{
    let begun = write_plan(cache_dir, file, content).subrange(0, k);
    lemma_cache_paths_differ(cache_dir, other, file);
    lemma_untouched_by_all(files, begun, other.path(cache_dir));
}

} // verus!
