use rusty_ci::{MailNotifier, Yaml};

#[test]
fn mailer_from_yaml() {
    let yaml = Yaml::from_text(
        r#"
extra-recipients:
  failure:
    - failure@gmail.com
  success:
    - success@gmail.com
  all:
    - all_tests@gmail.com

from-address: your-email-here@gmail.com
lookup: gmail.com
smtp-relay-host: smtp.gmail.com
smtp-port: 587
smtp-password: "p@$$w0rd""#,
    );

    let mailer = MailNotifier::from_yaml(&yaml).unwrap();
    let output = mailer.render();

    assert_eq!(
        output.trim(),
        "# The mail notifier responsible for all info\nall = reporters.MailNotifier(fromaddr=\"your-email-here@gmail.com\",\n                            sendToInterestedUsers=True,\n                            extraRecipients=[\"all_tests@gmail.com\"],\n                            lookup=\"gmail.com\",\n                            relayhost=\"smtp.gmail.com\", smtpPort=587,\n                            smtpUser=\"your-email-here@gmail.com\", buildSetSummary=True,\n                            # addLogs=True,\n                            mode=\"all\",\n                            smtpPassword=\"p@$$w0rd\")\nc[\'services\'].append(all)\n\n\n# The mail notifier responsible for failures\nfailures = reporters.MailNotifier(fromaddr=\"your-email-here@gmail.com\",\n                            sendToInterestedUsers=True,\n                            extraRecipients=[\"failure@gmail.com\"],\n                            lookup=\"gmail.com\",\n                            relayhost=\"smtp.gmail.com\", smtpPort=587,\n                            smtpUser=\"your-email-here@gmail.com\", buildSetSummary=True,\n                            # addLogs=True,\n                            mode=\"failing\",\n                            smtpPassword=\"p@$$w0rd\")\nc[\'services\'].append(failures)\n\n\n\n# The mail notifier responsible for successes\nsuccesses = reporters.MailNotifier(fromaddr=\"your-email-here@gmail.com\",\n                            sendToInterestedUsers=True,\n                            extraRecipients=[\"success@gmail.com\"],\n                            lookup=\"gmail.com\",\n                            relayhost=\"smtp.gmail.com\", smtpPort=587,\n                            smtpUser=\"your-email-here@gmail.com\", buildSetSummary=True,\n                            # addLogs=True,\n                            mode=\"passing\",\n                            smtpPassword=\"p@$$w0rd\")\nc[\'services\'].append(successes)".trim()
    );
}

#[test]
fn mail_missing_category_names_it() {
    let yaml = Yaml::from_text(
        "extra-recipients:\n  all:\n    - a@b.c\n  success:\n    - s@b.c\nfrom-address: f@b.c\nlookup: b.c\nsmtp-relay-host: smtp.b.c\nsmtp-port: 587\nsmtp-password: pw\n",
    );
    match MailNotifier::from_yaml(&yaml) {
        Err(rusty_ci::CiError::MissingSection { entity, section }) => {
            assert_eq!(entity, "extra-recipients");
            assert_eq!(section, "failure");
        }
        _ => panic!("a mail document without a failure list must not build"),
    }
}

#[test]
fn mail_unmatched_quote_is_fatal() {
    let yaml = Yaml::from_text(
        "extra-recipients:\n  all:\n    - \"a@b.c\nfrom-address: f@b.c\n",
    );
    match MailNotifier::from_yaml(&yaml) {
        Err(rusty_ci::CiError::UnmatchedQuote { line }) => {
            assert_eq!(line, "    - \"a@b.c");
        }
        _ => panic!("unmatched quotes must be fatal"),
    }
}

#[test]
fn mail_empty_category_is_accepted() {
    // every category must be present, even with an empty list
    let yaml = Yaml::from_text(
        "extra-recipients:\n  all:\n  failure:\n  success:\n    - s@b.c\nfrom-address: f@b.c\nlookup: b.c\nsmtp-relay-host: smtp.b.c\nsmtp-port: 587\nsmtp-password: pw\n",
    );
    let mailer = MailNotifier::from_yaml(&yaml).unwrap();
    let output = mailer.render();
    assert!(output.contains("extraRecipients=[]"));
    assert!(output.contains("extraRecipients=[\"s@b.c\"]"));
}
