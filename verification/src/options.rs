//! The option set of a linking request.

use vstd::prelude::*;

verus! {

/// How an existing destination file is backed up before it is replaced.
///
/// The variants are the policies that `ln --backup=<name>` accepts; at most one
/// is active in a request.
#[derive(Clone, Copy, Debug, PartialEq, Eq, Structural)]
pub enum BackupControl {
    /// `none`: never make a backup.
    NoBackup,
    /// `off`: the same policy under its other name.
    Off,
    /// `numbered`: always make numbered backups.
    Numbered,
    /// `t`: the same policy under its other name.
    T,
    /// `existing`: numbered if numbered backups exist, simple otherwise.
    Existing,
    /// `nil`: the same policy under its other name.
    Nil,
    /// `simple`: always make simple backups.
    Simple,
    /// `never`: the same policy under its other name.
    Never,
}

impl BackupControl {
    /// The lowercase name of the policy, as it stands behind `--backup=`.
    pub open spec fn name_spec(self) -> Seq<char> {
        match self {
            BackupControl::NoBackup => "none"@,
            BackupControl::Off => "off"@,
            BackupControl::Numbered => "numbered"@,
            BackupControl::T => "t"@,
            BackupControl::Existing => "existing"@,
            BackupControl::Nil => "nil"@,
            BackupControl::Simple => "simple"@,
            BackupControl::Never => "never"@,
        }
    }

    /// The whole flag that selects the policy: `--backup=` and the name, in one
    /// word.
    pub open spec fn flag_spec(self) -> Seq<char> {
        "--backup="@ + self.name_spec()
    }

    /// The lowercase name of the policy.
    pub fn name(self) -> (s: &'static str)
        ensures
            s@ == self.name_spec(),
    {
        match self {
            BackupControl::NoBackup => "none",
            BackupControl::Off => "off",
            BackupControl::Numbered => "numbered",
            BackupControl::T => "t",
            BackupControl::Existing => "existing",
            BackupControl::Nil => "nil",
            BackupControl::Simple => "simple",
            BackupControl::Never => "never",
        }
    }

    /// The flag that selects the policy.
    pub fn flag(self) -> (s: &'static str)
        ensures
            s@ == self.flag_spec(),
    {
        proof {
            reveal_strlit("--backup=");
        }
        match self {
            BackupControl::NoBackup => {
                proof {
                    reveal_strlit("none");
                    reveal_strlit("--backup=none");
                }
                assert("--backup=none"@ =~= "--backup="@ + "none"@);
                "--backup=none"
            },
            BackupControl::Off => {
                proof {
                    reveal_strlit("off");
                    reveal_strlit("--backup=off");
                }
                assert("--backup=off"@ =~= "--backup="@ + "off"@);
                "--backup=off"
            },
            BackupControl::Numbered => {
                proof {
                    reveal_strlit("numbered");
                    reveal_strlit("--backup=numbered");
                }
                assert("--backup=numbered"@ =~= "--backup="@ + "numbered"@);
                "--backup=numbered"
            },
            BackupControl::T => {
                proof {
                    reveal_strlit("t");
                    reveal_strlit("--backup=t");
                }
                assert("--backup=t"@ =~= "--backup="@ + "t"@);
                "--backup=t"
            },
            BackupControl::Existing => {
                proof {
                    reveal_strlit("existing");
                    reveal_strlit("--backup=existing");
                }
                assert("--backup=existing"@ =~= "--backup="@ + "existing"@);
                "--backup=existing"
            },
            BackupControl::Nil => {
                proof {
                    reveal_strlit("nil");
                    reveal_strlit("--backup=nil");
                }
                assert("--backup=nil"@ =~= "--backup="@ + "nil"@);
                "--backup=nil"
            },
            BackupControl::Simple => {
                proof {
                    reveal_strlit("simple");
                    reveal_strlit("--backup=simple");
                }
                assert("--backup=simple"@ =~= "--backup="@ + "simple"@);
                "--backup=simple"
            },
            BackupControl::Never => {
                proof {
                    reveal_strlit("never");
                    reveal_strlit("--backup=never");
                }
                assert("--backup=never"@ =~= "--backup="@ + "never"@);
                "--backup=never"
            },
        }
    }
}

/// The option set as a mathematical value: what [`LnOptions`] holds, with each
/// string as the sequence of its characters.
pub ghost struct LinkOptions {
    pub backup: Option<BackupControl>,
    pub make_backup: bool,
    pub directory: bool,
    pub force: bool,
    pub logical: bool,
    pub no_dereference: bool,
    pub physical: bool,
    pub relative: bool,
    pub symbolic: bool,
    pub suffix: Option<Seq<char>>,
    pub target_directory: Option<Seq<char>>,
    pub no_target_directory: bool,
}

impl LinkOptions {
    /// The option set with nothing set.
    pub open spec fn unset() -> LinkOptions {
        LinkOptions {
            backup: None,
            make_backup: false,
            directory: false,
            force: false,
            logical: false,
            no_dereference: false,
            physical: false,
            relative: false,
            symbolic: false,
            suffix: None,
            target_directory: None,
            no_target_directory: false,
        }
    }

    /// The option set that replaces an existing destination by a symbolic link:
    /// `force` and `symbolic`, nothing else.
    pub open spec fn forced_symbolic() -> LinkOptions {
        LinkOptions { force: true, symbolic: true, ..LinkOptions::unset() }
    }
}

/// The options of one linking request.
///
/// The fields are independent of each other, with one exception: `make_backup`
/// is read only while `backup` is unset. No combination is rejected here; what
/// the utility makes of a contradictory set is the utility's business.
#[derive(Clone, Copy, Debug)]
pub struct LnOptions<'a> {
    /// The backup policy, by name (`--backup=<name>`).
    pub backup: Option<BackupControl>,
    /// Back up an existing destination (`-b`); read only while `backup` is unset.
    pub make_backup: bool,
    /// Allow hard links to directories (`-d`).
    pub directory: bool,
    /// Remove an existing destination (`-f`).
    pub force: bool,
    /// Dereference targets that are symbolic links (`-L`).
    pub logical: bool,
    /// Treat a destination that is a symbolic link to a directory as a file (`-n`).
    pub no_dereference: bool,
    /// Make hard links directly to symbolic links (`-P`).
    pub physical: bool,
    /// Make symbolic links relative to the link's location (`-r`).
    pub relative: bool,
    /// Make symbolic links instead of hard links (`-s`).
    pub symbolic: bool,
    /// The suffix of backup files (`-S <suffix>`).
    pub suffix: Option<&'a str>,
    /// The directory in which to create the links (`-t <dir>`).
    pub target_directory: Option<&'a str>,
    /// Always treat the destination as a normal file (`-T`).
    pub no_target_directory: bool,
}

impl<'a> View for LnOptions<'a> {
    type V = LinkOptions;

    open spec fn view(&self) -> LinkOptions {
        LinkOptions {
            backup: self.backup,
            make_backup: self.make_backup,
            directory: self.directory,
            force: self.force,
            logical: self.logical,
            no_dereference: self.no_dereference,
            physical: self.physical,
            relative: self.relative,
            symbolic: self.symbolic,
            suffix: match self.suffix {
                Some(s) => Some(s@),
                None => None,
            },
            target_directory: match self.target_directory {
                Some(d) => Some(d@),
                None => None,
            },
            no_target_directory: self.no_target_directory,
        }
    }
}

impl<'a> DeepView for LnOptions<'a> {
    type V = LinkOptions;

    open spec fn deep_view(&self) -> LinkOptions {
        self.view()
    }
}

impl<'a> Default for LnOptions<'a> {
    /// The option set with nothing set.
    fn default() -> (o: Self)
        ensures
            o@ == LinkOptions::unset(),
            o.suffix is None,
            o.target_directory is None,
    {
        LnOptions {
            backup: None,
            make_backup: false,
            directory: false,
            force: false,
            logical: false,
            no_dereference: false,
            physical: false,
            relative: false,
            symbolic: false,
            suffix: None,
            target_directory: None,
            no_target_directory: false,
        }
    }
}

} // verus!
