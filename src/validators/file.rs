//! Validation of a filesystem path.
use vstd::prelude::*;
use crate::config::FileCheck;
use crate::text::{format_radix, octal};
use crate::validators::{cat, error_view, success_view, views, warning_view, ResultView, ValidationResult, ValidationStatus, Validator};

verus! {

/// What could be read of a path's permission bits.
#[derive(Debug)]
pub enum PermissionProbe {
    /// The path's mode, as the platform reports it.
    Mode(u32),
    /// The platform has such bits but the path's metadata could not be read.
    Unreadable,
    /// The platform has no POSIX permission bits.
    Unsupported,
}

/// What was observed of a path.
pub struct FileObservation {
    pub exists: bool,
    pub is_dir: bool,
    pub permissions: PermissionProbe,
}

/// The low nine bits of a mode: owner, group and other permissions.
pub open spec fn permission_bits(mode: u32) -> u32 {
    mode & 0o777
}

/// The permission result, when the type check passed and bits are required.
pub open spec fn permission_outcome(path: Seq<char>, required: u32, probe: PermissionProbe) -> Seq<ResultView> {
    match probe {
        PermissionProbe::Mode(m) => {
            let actual = permission_bits(m);
            if actual == required {
                seq![success_view(path + " has correct permissions ("@ + octal(actual as nat) + ")"@)]
            } else {
                seq![
                    error_view(
                        path + " has permissions "@ + octal(actual as nat) + ", but "@ + octal(required as nat)
                            + " is required"@,
                        Some("Run 'chmod "@ + octal(required as nat) + " "@ + path + "' to fix"@),
                    ),
                ]
            }
        },
        PermissionProbe::Unreadable => Seq::empty(),
        PermissionProbe::Unsupported => seq![
            warning_view("Permission check skipped for "@ + path + " (not supported on this platform)"@, None),
        ],
    }
}

/// The results for entry `c` given what was observed of its path: one for
/// existence and type, then one for the permission bits when they are
/// required and the type check passed.
pub open spec fn file_outcome(c: FileCheck, o: FileObservation) -> Seq<ResultView> {
    let path = c.path@;
    if !o.exists {
        let item = if c.is_directory { "Directory"@ } else { "File"@ };
        let lower = if c.is_directory { "directory"@ } else { "file"@ };
        if c.required {
            seq![error_view(item + " "@ + path + " does not exist"@, Some("Create "@ + path + " "@ + lower))]
        } else {
            seq![warning_view(item + " "@ + path + " does not exist (optional)"@, None)]
        }
    } else {
        let first = if c.is_directory {
            if o.is_dir {
                success_view("Directory "@ + path + " exists"@)
            } else {
                error_view(path + " exists but is not a directory"@, Some("Ensure "@ + path + " is a directory"@))
            }
        } else {
            success_view(path + " exists"@)
        };
        let type_passed = !c.is_directory || o.is_dir;
        let rest = match c.permissions {
            Some(req) => if type_passed {
                permission_outcome(path, req, o.permissions)
            } else {
                Seq::empty()
            },
            None => Seq::empty(),
        };
        seq![first] + rest
    }
}

pub struct FileValidator {
    check: FileCheck,
}

impl FileValidator {
    pub closed spec fn spec_check(&self) -> FileCheck {
        self.check
    }

    pub fn new(check: FileCheck) -> (r: Self)
        ensures
            r.spec_check() == check,
    {
        FileValidator { check }
    }

    fn check_permissions(&self, required: u32, probe: &PermissionProbe, out: &mut Vec<ValidationResult>)
        ensures
            views(final(out)@) == views(old(out)@) + permission_outcome(self.spec_check().path@, required, *probe),
    {
        let path = self.check.path.as_str();
        let ghost before = out@;
        match probe {
            PermissionProbe::Mode(m) => {
                let actual = *m & 0o777;
                let a = format_radix(actual, 8);
                if actual == required {
                    let mut msg = cat(path, " has correct permissions (");
                    msg.append(a.as_str());
                    msg.append(")");
                    out.push(ValidationResult::success(msg));
                } else {
                    let q = format_radix(required, 8);
                    let mut msg = cat(path, " has permissions ");
                    msg.append(a.as_str());
                    msg.append(", but ");
                    msg.append(q.as_str());
                    msg.append(" is required");
                    let mut sg = cat("Run 'chmod ", q.as_str());
                    sg.append(" ");
                    sg.append(path);
                    sg.append("' to fix");
                    out.push(ValidationResult::error(msg, Some(sg)));
                }
            },
            PermissionProbe::Unreadable => {},
            PermissionProbe::Unsupported => {
                let mut msg = cat("Permission check skipped for ", path);
                msg.append(" (not supported on this platform)");
                out.push(ValidationResult::warning(msg, None));
            },
        }
        assert(views(out@) =~= views(before) + permission_outcome(self.spec_check().path@, required, *probe));
    }
}

impl Validator for FileValidator {
    type Observation = FileObservation;

    open spec fn outcome(&self, observed: FileObservation) -> Seq<ResultView> {
        file_outcome(self.spec_check(), observed)
    }

    fn validate(&self, observed: FileObservation) -> (r: Vec<ValidationResult>)
    {
        let mut out: Vec<ValidationResult> = Vec::new();
        let path = self.check.path.as_str();
        if observed.exists {
            let mut type_passed = true;
            if self.check.is_directory {
                if observed.is_dir {
                    let mut m = cat("Directory ", path);
                    m.append(" exists");
                    out.push(ValidationResult::success(m));
                } else {
                    type_passed = false;
                    let mut sg = cat("Ensure ", path);
                    sg.append(" is a directory");
                    out.push(ValidationResult::error(cat(path, " exists but is not a directory"), Some(sg)));
                }
            } else {
                out.push(ValidationResult::success(cat(path, " exists")));
            }
            if type_passed {
                if let Some(required) = self.check.permissions {
                    self.check_permissions(required, &observed.permissions, &mut out);
                }
            }
        } else {
            let item = if self.check.is_directory {
                "Directory"
            } else {
                "File"
            };
            let lower = if self.check.is_directory {
                "directory"
            } else {
                "file"
            };
            if self.check.required {
                let mut m = cat(item, " ");
                m.append(path);
                m.append(" does not exist");
                let mut sg = cat("Create ", path);
                sg.append(" ");
                sg.append(lower);
                out.push(ValidationResult::error(m, Some(sg)));
            } else {
                let mut m = cat(item, " ");
                m.append(path);
                m.append(" does not exist (optional)");
                out.push(ValidationResult::warning(m, None));
            }
        }
        assert(views(out@) =~= file_outcome(self.spec_check(), observed));
        out
    }
}

/// A missing path yields one result, an error when required and a warning
/// when optional; an existing path that is not a directory, checked as one,
/// yields an error first whatever the `required` flag.
pub proof fn lemma_file_statuses(c: FileCheck, o: FileObservation)
    ensures
        !o.exists ==> file_outcome(c, o).len() == 1 && file_outcome(c, o)[0].status == (if c.required {
            ValidationStatus::Error
        } else {
            ValidationStatus::Warning
        }),
        o.exists && c.is_directory && !o.is_dir ==> file_outcome(c, o).len() == 1 && file_outcome(c, o)[0].status
            == ValidationStatus::Error,
{
}

} // verus!
