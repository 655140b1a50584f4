//! Small helpers.

use crate::csmrc::{text_of, Config};
use crate::micromamba::{
    blank_log, descriptor_for, micromamba_at, note, notice_views, slice_texts, Notice,
    NoticeView, ProcessDescriptor, RUNTIME,
};
use vstd::prelude::*;

verus! {

/// The first of two optional values that is there.
pub open spec fn first_of(first: Option<Seq<char>>, second: Option<Seq<char>>) -> Option<
    Seq<char>,
> {
    if first is Some {
        first
    } else {
        second
    }
}

/// The user's home directory: `$HOME` where it is set, else
/// `%UserProfile%`, as Windows has it.
pub fn homedir(home: Option<String>, user_profile: Option<String>) -> (dir: Option<String>)
    ensures
        text_of(dir) == first_of(text_of(home), text_of(user_profile)),
{
    match home {
        Some(dir) => Some(dir),
        None => user_profile,
    }
}

/// Returns a descriptor ready to shell out to the `micromamba` in `$PATH`,
/// with the environment variables that the configuration asks for, and
/// logs that it is about to be run.
pub fn micromamba(config: &Config, args: Vec<&str>, log: &mut Vec<Notice>) -> (cmd:
    ProcessDescriptor)
    ensures
        cmd@ == descriptor_for(RUNTIME@, config@, slice_texts(args@)),
        cmd@.well_formed(),
        notice_views(final(log)@) == notice_views(old(log)@).push(NoticeView::AboutToRun(cmd@)),
{
    let mut unused = blank_log();
    let cmd = micromamba_at(RUNTIME, config, &args, &mut unused);
    note(log, Notice::AboutToRun(cmd.duplicate()));
    cmd
}

} // verus!
