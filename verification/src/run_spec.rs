//! The specification of one Cirrus run: the installed version it uses, the
//! input case and the arguments for the program.

use vstd::prelude::*;
use crate::paths::{file_name, file_stem, join, parent, path_file_name, path_file_stem, path_join, path_parent};

verus! {

/// The version used where none is asked for.
pub const DEFAULT_VERSION: &'static str = "stable";

/// Why a run could not be specified.
#[derive(Debug, Clone, PartialEq, Eq)]
pub enum SpecError {
    /// The input names no file.
    NoFileName,
    /// The input file lies in no directory.
    NoParentDirectory,
    /// The installation holds no such version: `reason` says why its
    /// directory could not be resolved under `root`.
    VersionNotFound { version: String, root: String, reason: String },
    /// The directory of `version` under `versions_dir` could not be resolved.
    VersionNotInstalled { version: String, versions_dir: String, reason: String },
}

/// The directory that holds the installed versions: `<root>/versions`.
pub open spec fn versions_dir_of(root: Seq<char>) -> Seq<char> {
    path_join(root, "versions"@)
}

/// The directory of an installed version: `<root>/versions/<version>`.
pub open spec fn version_dir_of(root: Seq<char>, version: Seq<char>) -> Seq<char> {
    path_join(versions_dir_of(root), version)
}

/// The version asked for, else the default one.
pub open spec fn chosen_version(version: Option<String>) -> Seq<char> {
    match version {
        Some(v) => v@,
        None => DEFAULT_VERSION@,
    }
}

/// The case directory and case name of an input: a directory is its own
/// case directory and its name is the case; a file lies in its case
/// directory and its name without extension is the case.
pub open spec fn input_dir_and_case(input: Seq<char>, is_dir: bool) -> Result<(Seq<char>, Seq<char>), SpecError> {
    if is_dir {
        match path_file_name(input) {
            Some(name) => Ok((input, name)),
            None => Err(SpecError::NoFileName),
        }
    } else {
        match path_parent(input) {
            None => Err(SpecError::NoParentDirectory),
            Some(dir) => match path_file_stem(input) {
                Some(stem) => Ok((dir, stem)),
                None => Err(SpecError::NoFileName),
            },
        }
    }
}

/// A directory is its own case directory, and its whole name, extension
/// included, is the case; a file lies in its parent directory, and only its
/// name without extension is the case.
pub proof fn law_case_of_directory_and_file(input: Seq<char>)
    ensures
        path_file_name(input) matches Some(name) ==> input_dir_and_case(input, true) == Ok::<(Seq<char>, Seq<char>), SpecError>((input, name)),
        path_file_name(input) is None ==> input_dir_and_case(input, true) == Err::<(Seq<char>, Seq<char>), SpecError>(SpecError::NoFileName),
        path_parent(input) is None ==> input_dir_and_case(input, false) == Err::<(Seq<char>, Seq<char>), SpecError>(SpecError::NoParentDirectory),
        path_parent(input) matches Some(dir) ==> (path_file_stem(input) matches Some(stem) ==>
            input_dir_and_case(input, false) == Ok::<(Seq<char>, Seq<char>), SpecError>((dir, stem))),
        path_parent(input) is Some && path_file_stem(input) is None ==> input_dir_and_case(input, false) == Err::<(Seq<char>, Seq<char>), SpecError>(SpecError::NoFileName),
{
}

/// Whether an input can be split into a case directory and a case name.
pub fn input_splits(input: &str, is_dir: bool) -> (splits: bool)
    ensures
        splits == input_dir_and_case(input@, is_dir) is Ok,
        splits == if is_dir {
            path_file_name(input@) is Some
        } else {
            path_parent(input@) is Some && path_file_stem(input@) is Some
        },
{
    if is_dir {
        file_name(input).is_some()
    } else {
        parent(input).is_some() && file_stem(input).is_some()
    }
}

/// Splits an input into its case directory and its case name.
pub fn split_input_into_dir_and_case(input: &str, is_dir: bool) -> (split: (String, String))
    requires
        input_dir_and_case(input@, is_dir) is Ok,
    ensures
        (split.0@, split.1@) == input_dir_and_case(input@, is_dir)->Ok_0,
        is_dir ==> split.0@ == input@ && split.1@ == path_file_name(input@)->0,
        !is_dir ==> split.0@ == path_parent(input@)->0 && split.1@ == path_file_stem(input@)->0,
{
    proof {
        law_case_of_directory_and_file(input@);
    }
    if is_dir {
        match file_name(input) {
            Some(name) => (input.to_owned(), name),
            None => unreached(),
        }
    } else {
        match (parent(input), file_stem(input)) {
            (Some(dir), Some(stem)) => (dir, stem),
            _ => unreached(),
        }
    }
}

/// The directory of `version` in the installation at `root`.
pub fn version_dir(root: &str, version: &str) -> (dir: String)
    ensures
        dir@ == version_dir_of(root@, version@),
{
    let versions = join(root, "versions");
    join(versions.as_str(), version)
}

/// A Cirrus run: the version's installation prefix, the input, its case
/// name and directory, and the arguments for the program.
pub struct Spec {
    prefix: String,
    input: String,
    case_name: String,
    case_dir: String,
    program_args: Vec<String>,
}

/// What a `Spec` holds, as text.
pub struct SpecView {
    pub prefix: Seq<char>,
    pub input: Seq<char>,
    pub case_name: Seq<char>,
    pub case_dir: Seq<char>,
    pub program_args: Seq<Seq<char>>,
}

/// The texts of a sequence of strings.
pub open spec fn texts(strings: Seq<String>) -> Seq<Seq<char>> {
    strings.map_values(|s: String| s@)
}

/// `args` after each of `added` is pushed onto it, one after another.
pub open spec fn push_each(args: Seq<Seq<char>>, added: Seq<Seq<char>>) -> Seq<Seq<char>>
    decreases added.len(),
{
    if added.len() == 0 {
        args
    } else {
        push_each(args.push(added[0]), added.drop_first())
    }
}

/// Adding arguments at once with `Spec::args` leaves them as adding them
/// one by one, in order, with `Spec::arg` does.
pub proof fn lemma_args_as_each_arg(args: Seq<Seq<char>>, added: Seq<Seq<char>>)
    ensures
        push_each(args, added) == args + added,
    decreases added.len(),
{
    if added.len() > 0 {
        lemma_args_as_each_arg(args.push(added[0]), added.drop_first());
        assert(args.push(added[0]) + added.drop_first() =~= args + added);
    }
}

impl View for Spec {
    type V = SpecView;

    closed spec fn view(&self) -> SpecView {
        SpecView {
            prefix: self.prefix@,
            input: self.input@,
            case_name: self.case_name@,
            case_dir: self.case_dir@,
            program_args: texts(self.program_args@),
        }
    }
}

impl Spec {
    /// Specifies a run of `input` with `version` (the default one where none
    /// is given) from the installation at `root`: `input_is_dir` tells
    /// whether the input is a directory, and `canonicalize` resolves the
    /// version's directory to the installation prefix, or says why it cannot.
    pub fn new<C>(input: String, version: Option<String>, root: &str, input_is_dir: bool, canonicalize: C) -> (spec: Result<Self, SpecError>)
        where
            C: FnOnce(String) -> Result<String, String>,
        requires
            forall|dir: String| call_requires(canonicalize, (dir,)),
        ensures
            input_dir_and_case(input@, input_is_dir) matches Err(e) ==> spec == Err::<Self, SpecError>(e),
            input_dir_and_case(input@, input_is_dir) matches Ok((case_dir, case_name)) ==>
                exists|dir: String, resolved: Result<String, String>| {
                    &&& dir@ == version_dir_of(root@, chosen_version(version))
                    &&& call_ensures(canonicalize, (dir,), resolved)
                    &&& (resolved matches Ok(prefix) ==> spec matches Ok(s) && s@ == (SpecView {
                        prefix: prefix@,
                        input: input@,
                        case_name,
                        case_dir,
                        program_args: Seq::empty(),
                    }))
                    &&& (resolved matches Err(why) ==> spec matches Err(e)
                        && e matches SpecError::VersionNotFound { version: v, root: r, reason }
                        && v@ == chosen_version(version) && r@ == root@ && reason@ == why@)
                },
            input_is_dir ==> (spec matches Ok(s) ==> s@.case_dir == input@ && path_file_name(input@) == Some(s@.case_name)),
            !input_is_dir ==> (spec matches Ok(s) ==> path_parent(input@) == Some(s@.case_dir)
                && path_file_stem(input@) == Some(s@.case_name)),
            input_is_dir && path_file_name(input@) is None ==> spec == Err::<Self, SpecError>(SpecError::NoFileName),
    {
        proof {
            law_case_of_directory_and_file(input@);
        }
        let version = match version {
            Some(v) => v,
            None => DEFAULT_VERSION.to_owned(),
        };
        if !input_splits(input.as_str(), input_is_dir) {
            return Err(
                if input_is_dir || parent(input.as_str()).is_some() {
                    SpecError::NoFileName
                } else {
                    SpecError::NoParentDirectory
                },
            );
        }
        let (case_dir, case_name) = split_input_into_dir_and_case(input.as_str(), input_is_dir);
        let dir = version_dir(root, version.as_str());
        let resolved = canonicalize(dir);
        match resolved {
            Ok(prefix) => {
                let spec = Spec { prefix, input, case_dir, case_name, program_args: Vec::new() };
                proof {
                    assert(texts(spec.program_args@) =~= Seq::<Seq<char>>::empty());
                }
                Ok(spec)
            },
            Err(reason) => Err(SpecError::VersionNotFound { version, root: root.to_owned(), reason }),
        }
    }

    /// The input file or directory.
    pub fn get_input(&self) -> (input: &str)
        ensures
            input@ == self@.input,
    {
        self.input.as_str()
    }

    /// The prefix of the chosen version's installation.
    pub fn get_prefix(&self) -> (prefix: &str)
        ensures
            prefix@ == self@.prefix,
    {
        self.prefix.as_str()
    }

    /// The name of the input file without its extension, or the name of the directory.
    pub fn get_case_name(&self) -> (case_name: &str)
        ensures
            case_name@ == self@.case_name,
    {
        self.case_name.as_str()
    }

    /// The directory that holds the input file.
    pub fn get_case_dir(&self) -> (case_dir: &str)
        ensures
            case_dir@ == self@.case_dir,
    {
        self.case_dir.as_str()
    }

    /// A program of the chosen version: `<prefix>/bin/<name>`.
    pub fn get_bin(&self, name: &str) -> (bin: String)
        ensures
            bin@ == path_join(path_join(self@.prefix, "bin"@), name@),
    {
        let bin_dir = join(self.prefix.as_str(), "bin");
        join(bin_dir.as_str(), name)
    }

    /// Adds one argument for the program.
    pub fn arg(&mut self, arg: &str) -> (this: &mut Self)
        ensures
            this@ == (SpecView { program_args: old(self)@.program_args.push(arg@), ..old(self)@ }),
            *final(self) == *final(this),
    {
        self.program_args.push(arg.to_owned());
        proof {
            assert(texts(self.program_args@) =~= texts(old(self).program_args@).push(arg@));
        }
        self
    }

    /// Adds arguments for the program, in order.
    pub fn args(&mut self, args: &[&str]) -> (this: &mut Self)
        ensures
            this@ == (SpecView { program_args: old(self)@.program_args + args@.map_values(|a: &str| a@), ..old(self)@ }),
            *final(self) == *final(this),
    {
        let mut i: usize = 0;
        while i < args.len()
            invariant
                i <= args@.len(),
                self@ == (SpecView {
                    program_args: old(self)@.program_args + args@.subrange(0, i as int).map_values(|a: &str| a@),
                    ..old(self)@
                }),
            decreases args@.len() - i,
        {
            let ghost before = self.program_args@;
            self.program_args.push(args[i].to_owned());
            proof {
                assert(texts(self.program_args@) =~= texts(before).push(args@[i as int]@));
                assert(args@.subrange(0, i + 1).map_values(|a: &str| a@) =~= args@.subrange(0, i as int).map_values(|a: &str| a@).push(args@[i as int]@));
            }
            i = i + 1;
        }
        proof {
            assert(args@.subrange(0, args@.len() as int) =~= args@);
        }
        self
    }

    /// The arguments for the program.
    pub fn get_args(&self) -> (args: &Vec<String>)
        ensures
            texts(args@) == self@.program_args,
    {
        &self.program_args
    }
}

/// The installation prefix of `version` at `root`: its directory, resolved
/// by `canonicalize`, or why it could not be.
pub fn get_install_root<C>(version: String, root: &str, canonicalize: C) -> (install_root: Result<String, SpecError>)
    where
        C: FnOnce(String) -> Result<String, String>,
    requires
        forall|dir: String| call_requires(canonicalize, (dir,)),
    ensures
        exists|dir: String, resolved: Result<String, String>| {
            &&& dir@ == version_dir_of(root@, version@)
            &&& call_ensures(canonicalize, (dir,), resolved)
            &&& (resolved matches Ok(prefix) ==> install_root matches Ok(p) && p@ == prefix@)
            &&& (resolved matches Err(why) ==> install_root matches Err(e)
                && e matches SpecError::VersionNotInstalled { version: v, versions_dir: d, reason }
                && v@ == version@ && d@ == versions_dir_of(root@) && reason@ == why@)
        },
{
    let versions_dir = join(root, "versions");
    let dir = join(versions_dir.as_str(), version.as_str());
    match canonicalize(dir) {
        Ok(prefix) => Ok(prefix),
        Err(reason) => Err(SpecError::VersionNotInstalled { version, versions_dir, reason }),
    }
}

} // verus!
