//! Where an expansion is written to be looked at: into the nearest `target` directory, seen from a
//! directory upwards.

use vstd::prelude::*;
use vstd::string::StringExecFns;

verus! {

/// What is to be done next. All but `Done` come out well or not.
#[derive(Clone, Copy)]
pub enum ExportStep {
    /// To look for a `target` directory here.
    Look,
    /// To make the directory for expansions in it.
    Prepare,
    /// To make the file there.
    Create,
    /// To go up to the parent directory.
    Rise,
    /// Nothing; the file is written, or it is not.
    Done(bool),
}

/// What is to be done after `step`, which came out well or not.
pub open spec fn following(step: ExportStep, well: bool) -> ExportStep {
    match (step, well) {
        (ExportStep::Look, true) => ExportStep::Prepare,
        (ExportStep::Look, false) => ExportStep::Rise,
        (ExportStep::Prepare, true) => ExportStep::Create,
        (ExportStep::Prepare, false) => ExportStep::Done(false),
        (ExportStep::Create, true) => ExportStep::Done(true),
        (ExportStep::Create, false) => ExportStep::Rise,
        (ExportStep::Rise, true) => ExportStep::Look,
        (ExportStep::Rise, false) => ExportStep::Done(false),
        (ExportStep::Done(written), _) => ExportStep::Done(written),
    }
}

impl ExportStep {
    /// What is to be done after this, which came out well or not.
    pub fn after(self, well: bool) -> (next: ExportStep)
        ensures
            next == following(self, well),
    {
        match self {
            ExportStep::Look => if well {
                ExportStep::Prepare
            } else {
                ExportStep::Rise
            },
            ExportStep::Prepare => if well {
                ExportStep::Create
            } else {
                ExportStep::Done(false)
            },
            ExportStep::Create => if well {
                ExportStep::Done(true)
            } else {
                ExportStep::Rise
            },
            ExportStep::Rise => if well {
                ExportStep::Look
            } else {
                ExportStep::Done(false)
            },
            ExportStep::Done(written) => ExportStep::Done(written),
        }
    }
}

/// The name of the file for the expansion called `postfix`.
pub open spec fn file_name_of(postfix: Seq<char>) -> Seq<char> {
    "forward_proxy_"@ + postfix + ".rs"@
}

/// The name of the file for the expansion called `postfix`.
pub fn file_name(postfix: &str) -> (name: String)
    ensures
        name@ == file_name_of(postfix@),
{
    let mut name = "forward_proxy_".to_owned();
    name.append(postfix);
    name.append(".rs");
    name
}

/// How the steps come out in a directory.
pub struct Place {
    /// There is a `target` directory.
    pub has_target: bool,
    /// The directory for expansions can be made in it.
    pub is_prepared: bool,
    /// The file can be made there.
    pub is_created: bool,
}

/// Whether the file is written, where `places` are a directory, its parent, and so on.
pub open spec fn is_written(places: Seq<Place>) -> bool
    decreases places.len(),
{
    if places.len() == 0 {
        false
    } else if places[0].has_target && !places[0].is_prepared {
        false
    } else if places[0].has_target && places[0].is_created {
        true
    } else {
        is_written(places.drop_first())
    }
}

/// How many steps can follow in one directory.
pub open spec fn rank(step: ExportStep) -> nat {
    match step {
        ExportStep::Look => 4,
        ExportStep::Prepare => 3,
        ExportStep::Create => 2,
        ExportStep::Rise => 1,
        ExportStep::Done(_) => 0,
    }
}

/// How the steps end that begin with `step` in the first of `places`.
pub open spec fn outcome(places: Seq<Place>, step: ExportStep) -> bool
    decreases places.len(), rank(step),
{
    if places.len() == 0 {
        false
    } else {
        match step {
            ExportStep::Look => outcome(places, following(step, places[0].has_target)),
            ExportStep::Prepare => outcome(places, following(step, places[0].is_prepared)),
            ExportStep::Create => outcome(places, following(step, places[0].is_created)),
            ExportStep::Rise => if places.len() == 1 {
                following(step, false) == ExportStep::Done(true)
            } else {
                outcome(places.drop_first(), following(step, true))
            },
            ExportStep::Done(written) => written,
        }
    }
}

/// The steps end, and the file is written in the nearest directory with a `target` directory that the
/// file can be made in, unless the directory for expansions cannot be made in one on the way.
pub proof fn law_export_ends(places: Seq<Place>)
    requires
        places.len() > 0,
    ensures
        outcome(places, ExportStep::Look) == is_written(places),
    decreases places.len(),
{
    reveal_with_fuel(outcome, 5);
    if places.len() > 1 {
        law_export_ends(places.drop_first());
    } else {
        assert(!is_written(places.drop_first()));
    }
}

/// What is done stays done.
pub proof fn law_done_stays(written: bool, well: bool)
    ensures
        following(ExportStep::Done(written), well) == ExportStep::Done(written),
{
}

/// The steps come one after the other while all goes well, from the look to the written file. A look that
/// finds nothing and a file that cannot be made lead to the parent directory, and from there to another
/// look; a directory that cannot be made, and the end of all directories, lead to no file.
pub proof fn law_steps_lead_on()
    ensures
        following(following(following(ExportStep::Look, true), true), true) == ExportStep::Done(true),
        following(ExportStep::Look, true) == ExportStep::Prepare,
        following(ExportStep::Prepare, true) == ExportStep::Create,
        following(following(ExportStep::Look, false), true) == ExportStep::Look,
        following(following(ExportStep::Create, false), true) == ExportStep::Look,
        following(ExportStep::Look, false) == ExportStep::Rise,
        following(ExportStep::Prepare, false) == ExportStep::Done(false),
        following(ExportStep::Rise, false) == ExportStep::Done(false),
{
}

/// The file is called after the expansion, and other expansions have other files.
pub proof fn law_files_are_told_apart(postfix: Seq<char>, other: Seq<char>)
    ensures
        file_name_of(postfix) == "forward_proxy_"@ + postfix + ".rs"@,
        file_name_of(postfix) == file_name_of(other) ==> postfix == other,
{
    let (a, b) = ("forward_proxy_"@, ".rs"@);
    if file_name_of(postfix) == file_name_of(other) {
        let name = file_name_of(postfix);
        assert(name.len() == a.len() + postfix.len() + b.len());
        assert(name.len() == a.len() + other.len() + b.len());
        assert(name.subrange(a.len() as int, name.len() - b.len()) =~= postfix);
        assert(file_name_of(other).subrange(a.len() as int, name.len() - b.len()) =~= other);
    }
}

} // verus!
