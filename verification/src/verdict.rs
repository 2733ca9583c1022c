//! The verdict fuser: collapses the signals of the pipeline stages into a
//! single `Reachable` grade.
//!
//! The grade is a function of the parsed syntax and the MX and SMTP
//! outcomes alone. The role and disposable flags that can downgrade a
//! deliverable address to Risky are derived from the parsed fields
//! themselves, so the auxiliary probes — and their failures — never change
//! reachability.

use vstd::prelude::*;

use crate::output::{CheckEmailOutput, MxDetails, MxError, Reachable, SmtpDetails, SmtpError,
    SyntaxDetails};
use crate::syntax::{is_disposable_domain, is_role_username, spec_is_disposable_domain,
    spec_is_role_username};

verus! {

/// The fusion rule. In order: invalid syntax is Invalid; a failed MX lookup
/// or an empty exchange list is Invalid; a failed SMTP dialog is Unknown; a
/// disabled or rejected recipient is Invalid; a deliverable recipient is
/// Risky when the domain is catch-all or disposable, the inbox is full, or
/// the local part is a role account, and Safe otherwise.
pub open spec fn spec_reachable(
    syntax: SyntaxDetails,
    mx: Result<MxDetails, MxError>,
    smtp: Result<SmtpDetails, SmtpError>,
) -> Reachable {
    if !syntax.is_valid_syntax {
        Reachable::Invalid
    } else {
        match mx {
            Err(_) => Reachable::Invalid,
            Ok(m) => if m.records.len() == 0 {
                Reachable::Invalid
            } else {
                match smtp {
                    Err(_) => Reachable::Unknown,
                    Ok(d) => if d.is_disabled {
                        Reachable::Invalid
                    } else if !d.is_deliverable {
                        Reachable::Invalid
                    } else if d.is_catch_all || d.has_full_inbox || spec_is_role_username(
                        syntax.username@,
                    ) || spec_is_disposable_domain(syntax.domain@) {
                        Reachable::Risky
                    } else {
                        Reachable::Safe
                    },
                }
            },
        }
    }
}

/// Combines the signals of the pipeline stages into the final verdict, by
/// the fusion rule.
pub fn calculate_reachable(
    syntax: &SyntaxDetails,
    mx: &Result<MxDetails, MxError>,
    smtp: &Result<SmtpDetails, SmtpError>,
) -> (r: Reachable)
    ensures
        r == spec_reachable(*syntax, *mx, *smtp),
{
    if !syntax.is_valid_syntax {
        return Reachable::Invalid;
    }
    match mx {
        Err(_) => Reachable::Invalid,
        Ok(m) => {
            if m.records.len() == 0 {
                return Reachable::Invalid;
            }
            match smtp {
                Err(_) => Reachable::Unknown,
                Ok(d) => {
                    if d.is_disabled {
                        Reachable::Invalid
                    } else if !d.is_deliverable {
                        Reachable::Invalid
                    } else if d.is_catch_all || d.has_full_inbox || is_role_username(
                        syntax.username.as_str(),
                    ) || is_disposable_domain(syntax.domain.as_str()) {
                        Reachable::Risky
                    } else {
                        Reachable::Safe
                    }
                },
            }
        },
    }
}

/// An invalid-syntax input is graded Invalid whatever the other signals
/// hold.
pub proof fn lemma_invalid_syntax_is_invalid(
    syntax: SyntaxDetails,
    mx: Result<MxDetails, MxError>,
    smtp: Result<SmtpDetails, SmtpError>,
)
    requires
        !syntax.is_valid_syntax,
    ensures
        spec_reachable(syntax, mx, smtp) == Reachable::Invalid,
{
}

/// The auxiliary probes never change reachability: two outputs graded by
/// the fusion rule from the same syntax, MX and SMTP outcomes carry the
/// same verdict, whatever their auxiliary results hold — signals or
/// errors.
pub proof fn lemma_misc_never_decides(o1: CheckEmailOutput, o2: CheckEmailOutput)
    requires
        o1.syntax == o2.syntax,
        o1.mx == o2.mx,
        o1.smtp == o2.smtp,
        o1.is_reachable == spec_reachable(o1.syntax, o1.mx, o1.smtp),
        o2.is_reachable == spec_reachable(o2.syntax, o2.mx, o2.smtp),
    ensures
        o1.is_reachable == o2.is_reachable,
{
}

} // verus!
