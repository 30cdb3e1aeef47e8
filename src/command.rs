//! The argument list that the external indexer is run with for one job.
use vstd::prelude::*;
use vstd::string::*;
use crate::config::{defines_view, opt_text, texts_view, Job, JobView};

verus! {

/// `prefix` followed by the value, as one argument, when the value is present.
pub open spec fn flag(prefix: Seq<char>, v: Option<Seq<char>>) -> Seq<Seq<char>> {
    match v {
        Some(x) => seq![prefix + x],
        None => Seq::empty(),
    }
}

/// The argument `arg` when `on` holds.
pub open spec fn switch(on: bool, arg: Seq<char>) -> Seq<Seq<char>> {
    if on {
        seq![arg]
    } else {
        Seq::empty()
    }
}

/// `-Dsymbol`, or `-Dsymbol='definition'` when a definition is given.
pub open spec fn define_arg(d: (Seq<char>, Option<Seq<char>>)) -> Seq<char> {
    match d.1 {
        Some(x) => "-D"@ + d.0 + "='"@ + x + "'"@,
        None => "-D"@ + d.0,
    }
}

/// The indexer's arguments for a job: the output file, the present optional
/// fields as flags, `--append` for every job after the first, `--recurse`,
/// one `-D` per define, and the job's path last.
pub open spec fn indexer_args(output_file: Seq<char>, append: bool, j: JobView) -> Seq<Seq<char>> {
    seq!["-o"@, output_file]
        + flag("--languages="@, j.settings.languages)
        + flag("--langmap="@, j.settings.language_maps)
        + flag("--extras="@, j.settings.extras)
        + switch(append, "--append"@)
        + switch(j.settings.recurse, "--recurse"@)
        + j.settings.defines.map_values(|d: (Seq<char>, Option<Seq<char>>)| define_arg(d))
        + flag("--exclude="@, j.settings.exclude)
        + flag("--exclude_exception="@, j.settings.exclude_exception)
        + seq![j.path]
}

/// Two texts, one after the other.
fn join(a: &str, b: &str) -> (r: String)
    ensures
        r@ == a@ + b@,
{
    let mut s = String::from_str(a);
    s.append(b);
    s
}

/// Appends the flag `prefix` + value when the value is present.
fn push_flag(args: &mut Vec<String>, prefix: &str, v: &Option<String>)
    ensures
        texts_view(final(args)@) == texts_view(old(args)@) + flag(prefix@, opt_text(*v)),
{
    match v {
        Some(x) => {
            args.push(join(prefix, x.as_str()));
            assert(texts_view(args@) =~= texts_view(old(args)@) + flag(prefix@, opt_text(*v)));
        },
        None => {
            assert(texts_view(args@) =~= texts_view(old(args)@) + flag(prefix@, opt_text(*v)));
        },
    }
}

/// Appends `arg` when `on` holds.
fn push_switch(args: &mut Vec<String>, on: bool, arg: &str)
    ensures
        texts_view(final(args)@) == texts_view(old(args)@) + switch(on, arg@),
{
    if on {
        args.push(String::from_str(arg));
    }
    assert(texts_view(args@) =~= texts_view(old(args)@) + switch(on, arg@));
}

/// The `-D` argument of one symbol definition.
fn define_argument(symbol: &String, definition: &Option<String>) -> (r: String)
    ensures
        r@ == define_arg((symbol@, opt_text(*definition))),
{
    let mut s = join("-D", symbol.as_str());
    match definition {
        Some(x) => {
            s.append("='");
            s.append(x.as_str());
            s.append("'");
        },
        None => {},
    }
    s
}

/// The arguments that the external indexer is run with for `job`, writing
/// into `output_file`; `append` is set for every job after the first.
pub fn indexer_arguments(output_file: &str, append: bool, job: &Job) -> (r: Vec<String>)
    ensures
        texts_view(r@) == indexer_args(output_file@, append, job@),
{
    let mut args: Vec<String> = Vec::new();
    args.push(String::from_str("-o"));
    args.push(String::from_str(output_file));
    assert(texts_view(args@) =~= seq!["-o"@, output_file@]);
    push_flag(&mut args, "--languages=", &job.languages);
    push_flag(&mut args, "--langmap=", &job.language_maps);
    push_flag(&mut args, "--extras=", &job.extras);
    push_switch(&mut args, append, "--append");
    push_switch(&mut args, job.recurse, "--recurse");
    let ghost base = texts_view(args@);
    let ghost ds = defines_view(job.defines@);
    let mut i: usize = 0;
    while i < job.defines.len()
        invariant
            i <= job.defines@.len(),
            ds == defines_view(job.defines@),
            args@.len() == base.len() + i,
            forall|j: int| 0 <= j < base.len() ==> (#[trigger] args@[j])@ == base[j],
            forall|j: int| 0 <= j < i ==> (#[trigger] args@[base.len() + j])@ == define_arg(ds[j]),
        decreases job.defines@.len() - i,
    {
        let (symbol, definition) = &job.defines[i];
        args.push(define_argument(symbol, definition));
        assert(args@[base.len() + i]@ == define_arg(ds[i as int]));
        i = i + 1;
    }
    proof {
        let want = base + ds.map_values(|d: (Seq<char>, Option<Seq<char>>)| define_arg(d));
        assert forall|j: int| 0 <= j < args@.len() implies texts_view(args@)[j] == want[j] by {
            if j >= base.len() {
                assert(args@[base.len() + (j - base.len())] == args@[j]);
            }
        }
        assert(texts_view(args@) =~= want);
    }
    push_flag(&mut args, "--exclude=", &job.exclude);
    push_flag(&mut args, "--exclude_exception=", &job.exclude_exception);
    let ghost before = texts_view(args@);
    args.push(job.path.clone());
    assert(texts_view(args@) =~= before + seq![job.path@]);
    args
}

} // verus!
