//! The mail notifier: recipient lists keyed by outcome, and the SMTP
//! parameters used to send build reports.

use vstd::prelude::*;
use vstd::string::StringExecFns;

use crate::error::{CiError, CiErrorView};
use crate::text::{render_str_list, spec_str_list};
use crate::yaml::{
    spec_has_section, spec_scalar_items, spec_section_block, spec_unwrap, unmatched_from,
    unmatched_quotes, unwrap, Yaml, YamlView,
};

verus! {

/// The mail policy of the pipeline: who hears of every build, of successes
/// and of failures, and the SMTP account the reports are sent from. The
/// user the relay is logged into is always the from-address.
pub struct MailNotifier {
    all_recipients: Vec<String>,
    success_recipients: Vec<String>,
    failure_recipients: Vec<String>,
    from_address: String,
    smtp_relay_host: String,
    smtp_port: String,
    smtp_user: String,
    lookup: String,
    smtp_password: String,
}

/// The mathematical value of a `MailNotifier`.
pub struct MailNotifierView {
    pub all_recipients: Seq<Seq<char>>,
    pub success_recipients: Seq<Seq<char>>,
    pub failure_recipients: Seq<Seq<char>>,
    pub from_address: Seq<char>,
    pub smtp_relay_host: Seq<char>,
    pub smtp_port: Seq<char>,
    pub smtp_user: Seq<char>,
    pub lookup: Seq<char>,
    pub smtp_password: Seq<char>,
}

impl View for MailNotifier {
    type V = MailNotifierView;

    closed spec fn view(&self) -> MailNotifierView {
        MailNotifierView {
            all_recipients: self.all_recipients.deep_view(),
            success_recipients: self.success_recipients.deep_view(),
            failure_recipients: self.failure_recipients.deep_view(),
            from_address: self.from_address@,
            smtp_relay_host: self.smtp_relay_host@,
            smtp_port: self.smtp_port@,
            smtp_user: self.smtp_user@,
            lookup: self.lookup@,
            smtp_password: self.smtp_password@,
        }
    }
}

/// The recipient list of one outcome category: the items of that subsection
/// of `extra-recipients`.
pub open spec fn spec_mail_recipients(y: YamlView, category: Seq<char>) -> Seq<Seq<char>> {
    spec_scalar_items(
        spec_section_block(spec_section_block(y.lines, "extra-recipients"@), category),
    )
}

/// The mail notifier a document describes.
pub open spec fn spec_mail_of(y: YamlView) -> MailNotifierView {
    MailNotifierView {
        all_recipients: spec_mail_recipients(y, "all"@),
        success_recipients: spec_mail_recipients(y, "success"@),
        failure_recipients: spec_mail_recipients(y, "failure"@),
        from_address: spec_unwrap(y.lines, "from-address"@),
        smtp_relay_host: spec_unwrap(y.lines, "smtp-relay-host"@),
        smtp_port: spec_unwrap(y.lines, "smtp-port"@),
        smtp_user: spec_unwrap(y.lines, "from-address"@),
        lookup: spec_unwrap(y.lines, "lookup"@),
        smtp_password: spec_unwrap(y.lines, "smtp-password"@),
    }
}

/// The first failure a mail document exhibits, if any: unmatched quotes
/// first, then the required sections in order, then the required
/// recipient categories in order.
pub open spec fn spec_mail_err(y: YamlView) -> Option<CiErrorView> {
    if unmatched_from(y.lines, 0) >= 0 {
        Some(CiErrorView::UnmatchedQuote { line: y.lines[unmatched_from(y.lines, 0)] })
    } else if !spec_has_section(y.lines, "extra-recipients"@) {
        Some(mail_missing("extra-recipients"@))
    } else if !spec_has_section(y.lines, "from-address"@) {
        Some(mail_missing("from-address"@))
    } else if !spec_has_section(y.lines, "smtp-relay-host"@) {
        Some(mail_missing("smtp-relay-host"@))
    } else if !spec_has_section(y.lines, "smtp-port"@) {
        Some(mail_missing("smtp-port"@))
    } else if !spec_has_section(y.lines, "lookup"@) {
        Some(mail_missing("lookup"@))
    } else if !spec_has_section(y.lines, "smtp-password"@) {
        Some(mail_missing("smtp-password"@))
    } else if !spec_has_section(spec_section_block(y.lines, "extra-recipients"@), "all"@) {
        Some(recipients_missing("all"@))
    } else if !spec_has_section(spec_section_block(y.lines, "extra-recipients"@), "failure"@) {
        Some(recipients_missing("failure"@))
    } else if !spec_has_section(spec_section_block(y.lines, "extra-recipients"@), "success"@) {
        Some(recipients_missing("success"@))
    } else {
        None
    }
}

/// A missing top-level section of the mail document.
pub open spec fn mail_missing(section: Seq<char>) -> CiErrorView {
    CiErrorView::MissingSection { entity: "mail notifier"@, section: section }
}

/// A missing recipient category of the `extra-recipients` section.
pub open spec fn recipients_missing(section: Seq<char>) -> CiErrorView {
    CiErrorView::MissingSection { entity: "extra-recipients"@, section: section }
}

impl MailNotifier {
    /// A mail notifier from its parts; the SMTP user is the from-address.
    pub fn new(
        all_recipients: Vec<String>,
        success_recipients: Vec<String>,
        failure_recipients: Vec<String>,
        from_address: String,
        smtp_relay_host: String,
        smtp_port: String,
        lookup: String,
        smtp_password: String,
    ) -> (r: MailNotifier)
        ensures
            r@ == (MailNotifierView {
                all_recipients: all_recipients.deep_view(),
                success_recipients: success_recipients.deep_view(),
                failure_recipients: failure_recipients.deep_view(),
                from_address: from_address@,
                smtp_relay_host: smtp_relay_host@,
                smtp_port: smtp_port@,
                smtp_user: from_address@,
                lookup: lookup@,
                smtp_password: smtp_password@,
            }),
    {
        let smtp_user = from_address.clone();
        MailNotifier {
            all_recipients,
            success_recipients,
            failure_recipients,
            from_address,
            smtp_relay_host,
            smtp_port,
            smtp_user,
            lookup,
            smtp_password,
        }
    }

    /// Builds the mail notifier a document describes. The document must
    /// pair its quotes, name every SMTP section, and give all three
    /// recipient categories, even empty ones; the first violation is the
    /// failure reported.
    pub fn from_yaml(yaml: &Yaml) -> (r: Result<MailNotifier, CiError>)
        ensures
            (r is Ok) <==> (spec_mail_err(yaml@) is None),
            r matches Ok(m) ==> m@ == spec_mail_of(yaml@),
            r matches Err(e) ==> spec_mail_err(yaml@) == Some(e@),
    {
        if let Some(line) = unmatched_quotes(yaml) {
            return Err(CiError::UnmatchedQuote { line });
        }
        if !yaml.has_section("extra-recipients") {
            return Err(mail_missing_exec("extra-recipients"));
        }
        if !yaml.has_section("from-address") {
            return Err(mail_missing_exec("from-address"));
        }
        if !yaml.has_section("smtp-relay-host") {
            return Err(mail_missing_exec("smtp-relay-host"));
        }
        if !yaml.has_section("smtp-port") {
            return Err(mail_missing_exec("smtp-port"));
        }
        if !yaml.has_section("lookup") {
            return Err(mail_missing_exec("lookup"));
        }
        if !yaml.has_section("smtp-password") {
            return Err(mail_missing_exec("smtp-password"));
        }
        let extra = match yaml.get_section("extra-recipients") {
            Ok(s) => s,
            Err(_) => {
                proof {
                    assert(false);
                }
                return Err(mail_missing_exec("extra-recipients"));
            },
        };
        if !extra.has_section("all") {
            return Err(recipients_missing_exec("all"));
        }
        if !extra.has_section("failure") {
            return Err(recipients_missing_exec("failure"));
        }
        if !extra.has_section("success") {
            return Err(recipients_missing_exec("success"));
        }
        let all_recipients = recipient_list(&extra, "all");
        let failure_recipients = recipient_list(&extra, "failure");
        let success_recipients = recipient_list(&extra, "success");
        let from_address = unwrap(yaml, "from-address");
        let smtp_relay_host = unwrap(yaml, "smtp-relay-host");
        let smtp_port = unwrap(yaml, "smtp-port");
        let smtp_password = unwrap(yaml, "smtp-password");
        let lookup = unwrap(yaml, "lookup");
        let smtp_user = from_address.clone();
        Ok(
            MailNotifier {
                all_recipients,
                success_recipients,
                failure_recipients,
                from_address,
                smtp_relay_host,
                smtp_port,
                smtp_user,
                lookup,
                smtp_password,
            },
        )
    }
}

/// The items of one recipient category.
fn recipient_list(extra: &Yaml, category: &str) -> (r: Vec<String>)
    requires
        spec_has_section(extra@.lines, category@),
    ensures
        r.deep_view() == spec_scalar_items(spec_section_block(extra@.lines, category@)),
{
    match extra.get_section(category) {
        Ok(s) => s.item_texts(),
        Err(_) => {
            proof {
                assert(false);
            }
            Vec::new()
        },
    }
}

/// A missing top-level section of the mail document, as a value.
fn mail_missing_exec(section: &str) -> (r: CiError)
    ensures
        r@ == mail_missing(section@),
{
    CiError::MissingSection {
        entity: String::from_str("mail notifier"),
        section: section.to_owned(),
    }
}

/// A missing recipient category, as a value.
fn recipients_missing_exec(section: &str) -> (r: CiError)
    ensures
        r@ == recipients_missing(section@),
{
    CiError::MissingSection {
        entity: String::from_str("extra-recipients"),
        section: section.to_owned(),
    }
}

// ---------------------------------------------------------------------------
// Rendering
// ---------------------------------------------------------------------------

/// The parameter list of one generated notifier: the from-address, the
/// given recipients, the lookup suffix, the relay and its port, the user,
/// the reporting mode, and the password.
pub open spec fn spec_mail_params(
    v: MailNotifierView,
    recipients: Seq<Seq<char>>,
    mode: Seq<char>,
) -> Seq<char> {
    "fromaddr=\""@ + v.from_address
        + "\",\n                            sendToInterestedUsers=True,\n                            extraRecipients="@
        + spec_str_list(recipients) + ",\n                            lookup=\""@ + v.lookup
        + "\",\n                            relayhost=\""@ + v.smtp_relay_host + "\", smtpPort="@
        + v.smtp_port + ",\n                            smtpUser=\""@ + v.smtp_user
        + "\", buildSetSummary=True,\n                            # addLogs=True,\n                            mode=\""@
        + mode + "\",\n                            smtpPassword=\""@ + v.smtp_password + "\")"@
}

/// The text the mail notifier contributes to the master configuration:
/// three notifier registrations, for every build, for failures and for
/// successes.
pub open spec fn spec_render_mail(v: MailNotifierView) -> Seq<char> {
    "\n\n# The mail notifier responsible for all info\nall = reporters.MailNotifier("@
        + spec_mail_params(v, v.all_recipients, "all"@)
        + "\nc['services'].append(all)\n\n\n# The mail notifier responsible for failures\nfailures = reporters.MailNotifier("@
        + spec_mail_params(v, v.failure_recipients, "failing"@)
        + "\nc['services'].append(failures)\n\n\n\n# The mail notifier responsible for successes\nsuccesses = reporters.MailNotifier("@
        + spec_mail_params(v, v.success_recipients, "passing"@)
        + "\nc['services'].append(successes)\n\n\n"@
}

/// Appends one notifier's parameter list to `out`.
fn append_mail_params(out: &mut String, m: &MailNotifier, recipients: &Vec<String>, mode: &str)
    ensures
        final(out)@ == old(out)@ + spec_mail_params(m@, recipients.deep_view(), mode@),
{
    out.append("fromaddr=\"");
    out.append(m.from_address.as_str());
    out.append(
        "\",\n                            sendToInterestedUsers=True,\n                            extraRecipients=",
    );
    let list = render_str_list(recipients);
    out.append(list.as_str());
    out.append(",\n                            lookup=\"");
    out.append(m.lookup.as_str());
    out.append("\",\n                            relayhost=\"");
    out.append(m.smtp_relay_host.as_str());
    out.append("\", smtpPort=");
    out.append(m.smtp_port.as_str());
    out.append(",\n                            smtpUser=\"");
    out.append(m.smtp_user.as_str());
    out.append(
        "\", buildSetSummary=True,\n                            # addLogs=True,\n                            mode=\"",
    );
    out.append(mode);
    out.append("\",\n                            smtpPassword=\"");
    out.append(m.smtp_password.as_str());
    out.append("\")");
    proof {
        assert(out@ =~= old(out)@ + spec_mail_params(m@, recipients.deep_view(), mode@));
    }
}

impl MailNotifier {
    /// Renders this mail notifier for the master configuration.
    pub fn render(&self) -> (r: String)
        ensures
            r@ == spec_render_mail(self@),
    {
        let mut r = String::new();
        r.append("\n\n# The mail notifier responsible for all info\nall = reporters.MailNotifier(");
        append_mail_params(&mut r, self, &self.all_recipients, "all");
        r.append(
            "\nc['services'].append(all)\n\n\n# The mail notifier responsible for failures\nfailures = reporters.MailNotifier(",
        );
        append_mail_params(&mut r, self, &self.failure_recipients, "failing");
        r.append(
            "\nc['services'].append(failures)\n\n\n\n# The mail notifier responsible for successes\nsuccesses = reporters.MailNotifier(",
        );
        append_mail_params(&mut r, self, &self.success_recipients, "passing");
        r.append("\nc['services'].append(successes)\n\n\n");
        proof {
            assert(r@ =~= spec_render_mail(self@));
        }
        r
    }
}

} // verus!
