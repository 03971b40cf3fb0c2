//! The two command lines of a hand-off: the package manager run that installs
//! the new version, and the start of the new instance.

use vstd::prelude::*;
use vstd::string::*;
use crate::text::texts;

verus! {

/// The flags that select `features`: each name preceded by `--features`.
pub open spec fn feature_flags(features: Seq<Seq<char>>) -> Seq<Seq<char>> {
    Seq::new(
        2 * features.len(),
        |i: int|
            if i % 2 == 0 {
                "--features"@
            } else {
                features[i / 2]
            },
    )
}

/// The arguments of the package manager run: the install subcommand, the
/// package, then the feature flags.
pub open spec fn install_arguments_of(package_id: Seq<char>, features: Seq<Seq<char>>) -> Seq<
    Seq<char>,
> {
    seq!["install"@, package_id] + feature_flags(features)
}

/// The program that installs packages.
pub fn installer_program() -> (program: String)
    ensures
        program@ == "cargo"@,
{
    String::from_str("cargo")
}

/// Builds the arguments that make the package manager install `package_id`
/// with `features` switched on.
pub fn install_arguments(package_id: &str, features: &Vec<String>) -> (arguments: Vec<String>)
    ensures
        texts(arguments@) == install_arguments_of(package_id@, texts(features@)),
{
    let mut arguments: Vec<String> = Vec::new();
    arguments.push(String::from_str("install"));
    arguments.push(String::from_str(package_id));
    let mut i: usize = 0;
    while i < features.len()
        invariant
            i <= features.len(),
            arguments.len() == 2 + 2 * i,
            arguments[0]@ == "install"@,
            arguments[1]@ == package_id@,
            forall|k: int|
                0 <= k < 2 * i ==> (#[trigger] arguments[2 + k])@ == feature_flags(
                    texts(features@),
                )[k],
        decreases features.len() - i,
    {
        arguments.push(String::from_str("--features"));
        arguments.push(features[i].clone());
        i += 1;
    }
    assert(texts(arguments@) =~= install_arguments_of(package_id@, texts(features@))) by {
        let want = install_arguments_of(package_id@, texts(features@));
        assert forall|j: int| 0 <= j < want.len() implies texts(arguments@)[j] == want[j] by {
            if j >= 2 {
                assert(arguments[2 + (j - 2)]@ == feature_flags(texts(features@))[j - 2]);
            }
        }
    }
    arguments
}

/// The start of the new instance: the program that was invoked and the
/// arguments it was invoked with.
#[derive(Debug, PartialEq, Eq)]
pub struct RelaunchCommand {
    pub program: String,
    pub arguments: Vec<String>,
}

/// Splits the argument vector of the running process into the program and its
/// arguments, all of them unchanged. There is nothing to start when the vector
/// is empty.
pub fn relaunch_command(argv: &Vec<String>) -> (command: Option<RelaunchCommand>)
    ensures
        argv@.len() == 0 <==> command is None,
        command matches Some(c) ==> {
            &&& c.program@ == argv@[0]@
            &&& texts(c.arguments@) == texts(argv@).skip(1)
        },
{
    if argv.len() == 0 {
        return None;
    }
    let program = argv[0].clone();
    let mut arguments: Vec<String> = Vec::new();
    let mut i: usize = 1;
    while i < argv.len()
        invariant
            1 <= i <= argv.len(),
            arguments.len() == i - 1,
            forall|k: int| 0 <= k < i - 1 ==> arguments[k]@ == argv[k + 1]@,
        decreases argv.len() - i,
    {
        arguments.push(argv[i].clone());
        i += 1;
    }
    Some(RelaunchCommand { program, arguments })
}

} // verus!
