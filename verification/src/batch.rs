//! Batch planning: which entries of a directory are processed, and where
//! the crop of each is written.

use crate::paths::{
    batch_output_path, is_image_extension, is_image_path, resolve_batch_output,
    PathPlan,
};
use vstd::prelude::*;

verus! {

/// One direct entry of the input directory: its path, and whether it is a
/// regular file.
#[derive(Clone, Debug)]
pub struct Entry {
    pub path: String,
    pub is_file: bool,
}

impl Entry {
    /// The entry as a pair: the text of its path, and whether it is a file.
    pub open spec fn view(&self) -> (Seq<char>, bool) {
        (self.path@, self.is_file)
    }
}

/// What is planned for one entry: input and output path where the entry is
/// a file that is taken for an image, nothing otherwise.
pub open spec fn plan_for(entry: Entry, out_dir: Option<Seq<char>>) -> Option<
    (Seq<char>, Seq<char>),
> {
    if entry.is_file && is_image_path(entry.path@) {
        match batch_output_path(entry.path@, out_dir) {
            Some(output) => Some((entry.path@, output)),
            None => None,
        }
    } else {
        None
    }
}

/// The plans for a directory's entries: one for each entry that has one, in
/// the order of the entries.
pub open spec fn planned(entries: Seq<Entry>, out_dir: Option<Seq<char>>) -> Seq<
    (Seq<char>, Seq<char>),
> {
    entries.filter_map(|entry: Entry| plan_for(entry, out_dir))
}

/// A list of plans as pairs of texts.
pub open spec fn plans_view(plans: Seq<PathPlan>) -> Seq<(Seq<char>, Seq<char>)> {
    plans.map_values(|plan: PathPlan| plan@)
}

/// An entry is planned exactly when it is a file whose path names an image:
/// such a path always has a file name to derive the output from.
pub proof fn planned_iff_image_file(entry: Entry, out_dir: Option<Seq<char>>)
    ensures
        plan_for(entry, out_dir) is Some <==> entry.is_file && is_image_path(entry.path@),
        plan_for(entry, out_dir) is Some ==> plan_for(entry, out_dir)->Some_0.0 == entry.path@,
{
}

/// The plans for the first `done + 1` entries are those for the first
/// `done`, followed by the plan for the next entry where it has one.
proof fn planned_next(entries: Seq<Entry>, out_dir: Option<Seq<char>>, done: int)
    requires
        0 <= done < entries.len(),
    ensures
        planned(entries.take(done + 1), out_dir) == match plan_for(entries[done], out_dir) {
            Some(plan) => planned(entries.take(done), out_dir).push(plan),
            None => planned(entries.take(done), out_dir),
        },
{
    entries.lemma_filter_map_take_succ(|entry: Entry| plan_for(entry, out_dir), done);
    match plan_for(entries[done], out_dir) {
        Some(plan) => {
            assert(planned(entries.take(done), out_dir) + seq![plan] =~= planned(
                entries.take(done),
                out_dir,
            ).push(plan));
        },
        None => {
            assert(planned(entries.take(done), out_dir) + Seq::<(Seq<char>, Seq<char>)>::empty()
                =~= planned(entries.take(done), out_dir));
        },
    }
}

/// Plans the processing of a directory from its direct entries: every file
/// whose extension is a supported one is taken, in the order given, with the
/// output path inside `out_dir` where one is given and beside the input
/// otherwise. Directories and files with other extensions are passed over.
pub fn plan_directory(entries: &Vec<Entry>, out_dir: Option<&str>) -> (plans: Vec<PathPlan>)
    ensures
        plans_view(plans@) == planned(
            entries@,
            match out_dir {
                Some(dir) => Some(dir@),
                None => None,
            },
        ),
{
    let ghost dir_text: Option<Seq<char>> = match out_dir {
        Some(dir) => Some(dir@),
        None => None,
    };
    let mut plans: Vec<PathPlan> = Vec::new();
    let mut done: usize = 0;
    assert(plans_view(plans@) =~= planned(entries@.take(0), dir_text));
    while done < entries.len()
        invariant
            done <= entries.len(),
            dir_text == match out_dir {
                Some(dir) => Some(dir@),
                None => None,
            },
            plans_view(plans@) == planned(entries@.take(done as int), dir_text),
        decreases entries.len() - done,
    {
        let entry = &entries[done];
        proof {
            planned_next(entries@, dir_text, done as int);
        }
        if entry.is_file && is_image_extension(entry.path.as_str()) {
            match resolve_batch_output(entry.path.as_str(), out_dir) {
                Ok(output) => {
                    let plan = PathPlan { input: entry.path.clone(), output };
                    let ghost before = plans@;
                    plans.push(plan);
                    assert(plans_view(plans@) =~= plans_view(before).push(plan@));
                },
                Err(_) => {},
            }
        }
        done += 1;
    }
    assert(entries@.take(done as int) =~= entries@);
    plans
}

} // verus!
