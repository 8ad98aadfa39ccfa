//! Command lines and the host they are built for.

use vstd::prelude::*;

verus! {

/// The operating system whose launch mechanisms a command line is built for.
#[derive(Clone, Copy, Debug, PartialEq, Eq, Structural)]
pub enum Platform {
    MacOs,
    Windows,
    Linux,
}

/// What the dispatcher is told about the machine it runs on.
#[derive(Clone, Debug, PartialEq, Eq)]
pub struct Host {
    pub platform: Platform,
    /// Directory in which the terminal action may leave its script.
    pub temp_dir: String,
}

/// A `Host` as plain text.
pub struct HostView {
    pub platform: Platform,
    pub temp_dir: Seq<char>,
}

impl View for Host {
    type V = HostView;

    open spec fn view(&self) -> HostView {
        HostView { platform: self.platform, temp_dir: self.temp_dir@ }
    }
}

/// The texts held by a sequence of strings.
pub open spec fn texts(strings: Seq<String>) -> Seq<Seq<char>> {
    Seq::new(strings.len(), |i: int| strings[i]@)
}

/// A program and the arguments it is started with.
#[derive(Clone, Debug, PartialEq, Eq)]
pub struct CommandLine {
    pub program: String,
    pub args: Vec<String>,
}

/// A command line as plain text.
pub struct CommandLineView {
    pub program: Seq<char>,
    pub args: Seq<Seq<char>>,
}

impl View for CommandLine {
    type V = CommandLineView;

    open spec fn view(&self) -> CommandLineView {
        CommandLineView { program: self.program@, args: texts(self.args@) }
    }
}

/// Appends a copy of each of `items` to `args`.
pub fn push_all(args: &mut Vec<String>, items: &Vec<String>)
    ensures
        texts(final(args)@) == texts(old(args)@) + texts(items@),
{
    let ghost before = args@;
    let mut i: usize = 0;
    while i < items.len()
        invariant
            i <= items.len(),
            texts(args@) == texts(before) + texts(items@).take(i as int),
        decreases items.len() - i,
    {
        let ghost prev = args@;
        args.push(items[i].clone());
        assert(texts(args@) == texts(prev).push(items@[i as int]@));
        assert(texts(items@).take(i + 1) == texts(items@).take(i as int).push(items@[i as int]@));
        i += 1;
    }
    assert(texts(items@).take(items.len() as int) == texts(items@));
}

} // verus!
