//! The listing of a folder and the image paths it offers.

use vstd::prelude::*;
use vstd::string::*;

verus! {

/// One entry of a folder, as the listing of the folder reported it.
#[derive(Debug, PartialEq, Eq)]
pub enum FolderEntry {
    /// An entry the listing could not read.
    Unreadable,
    /// A folder inside the folder.
    Directory,
    /// Anything else, with its name where the name is valid Unicode.
    File(Option<String>),
}

/// The path of the entry called `name` inside `folder`.
pub open spec fn candidate_path(folder: Seq<char>, name: Seq<char>) -> Seq<char> {
    folder + seq!['/'] + name
}

/// The paths a folder offers for selection, in the order of its listing:
/// one for each named entry that is not a folder.
pub open spec fn candidates(folder: Seq<char>, entries: Seq<FolderEntry>) -> Seq<Seq<char>>
    decreases entries.len(),
{
    if entries.len() == 0 {
        Seq::empty()
    } else {
        let earlier = candidates(folder, entries.drop_last());
        match entries.last() {
            FolderEntry::File(Some(name)) => earlier.push(candidate_path(folder, name@)),
            _ => earlier,
        }
    }
}

/// No two named files of the listing share a name, as in every listing of
/// a real folder.
pub open spec fn distinct_names(entries: Seq<FolderEntry>) -> bool {
    forall|i: int, j: int|
        0 <= i < j < entries.len() ==> match (#[trigger] entries[i], #[trigger] entries[j]) {
            (FolderEntry::File(Some(first)), FolderEntry::File(Some(second))) => first@
                != second@,
            _ => true,
        }
}

/// Collects the candidate paths of a folder from its listing: folders,
/// unreadable entries and entries without a Unicode name are passed over,
/// and every other entry contributes `folder/name`.
pub fn read_images_in_folder(folder: &str, entries: &Vec<FolderEntry>) -> (images: Vec<String>)
    ensures
        images.deep_view() == candidates(folder@, entries@),
{
    let mut images: Vec<String> = Vec::new();
    let mut index: usize = 0;
    while index < entries.len()
        invariant
            index <= entries.len(),
            images.deep_view() == candidates(folder@, entries@.take(index as int)),
        decreases entries.len() - index,
    {
        let ghost earlier = images.deep_view();
        match &entries[index] {
            FolderEntry::File(Some(name)) => {
                let mut path = folder.to_owned();
                path.append("/");
                path.append(name.as_str());
                proof {
                    reveal_strlit("/");
                    assert("/"@ =~= seq!['/']);
                }
                images.push(path);
                assert(images.deep_view() =~= earlier.push(candidate_path(folder@, name@)));
            },
            _ => {},
        }
        proof {
            assert(entries@.take(index + 1).drop_last() =~= entries@.take(index as int));
        }
        index += 1;
    }
    proof {
        assert(entries@.take(index as int) =~= entries@);
    }
    images
}

/// Every candidate of a folder is the path of one of its named files.
proof fn lemma_candidate_origin(folder: Seq<char>, entries: Seq<FolderEntry>, i: int) -> (k: int)
    requires
        0 <= i < candidates(folder, entries).len(),
    ensures
        0 <= k < entries.len(),
        entries[k] matches FolderEntry::File(Some(name)) && candidates(folder, entries)[i]
            == candidate_path(folder, name@),
    decreases entries.len(),
{
    let earlier = candidates(folder, entries.drop_last());
    if i < earlier.len() {
        lemma_candidate_origin(folder, entries.drop_last(), i)
    } else {
        entries.len() - 1
    }
}

/// A folder whose named files all have different names offers no path
/// twice.
pub proof fn lemma_candidates_distinct(folder: Seq<char>, entries: Seq<FolderEntry>)
    requires
        distinct_names(entries),
    ensures
        candidates(folder, entries).no_duplicates(),
    decreases entries.len(),
{
    if entries.len() > 0 {
        let before = entries.drop_last();
        let earlier = candidates(folder, before);
        assert(distinct_names(before)) by {
            assert forall|i: int, j: int| 0 <= i < j < before.len() implies match (
                #[trigger] before[i],
                #[trigger] before[j],
            ) {
                (FolderEntry::File(Some(first)), FolderEntry::File(Some(second))) => first@
                    != second@,
                _ => true,
            } by {
                assert(before[i] == entries[i] && before[j] == entries[j]);
            }
        }
        lemma_candidates_distinct(folder, before);
        if let FolderEntry::File(Some(name)) = entries.last() {
            let path = candidate_path(folder, name@);
            assert forall|i: int| 0 <= i < earlier.len() implies earlier[i] != path by {
                let k = lemma_candidate_origin(folder, before, i);
                assert(before[k] == entries[k]);
                let other = entries[k]->File_0->Some_0;
                assert(other@ != name@);
                lemma_candidate_path_injective(folder, other@, name@);
            }
        }
    }
}

/// Different names give different paths inside one folder.
proof fn lemma_candidate_path_injective(folder: Seq<char>, first: Seq<char>, second: Seq<char>)
    requires
        first != second,
    ensures
        candidate_path(folder, first) != candidate_path(folder, second),
{
    let prefix = folder.len() + 1;
    assert(candidate_path(folder, first).skip(prefix as int) =~= first);
    assert(candidate_path(folder, second).skip(prefix as int) =~= second);
}

} // verus!
