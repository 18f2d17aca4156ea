//! The notice mail sent when the bot goes offline.

use vstd::prelude::*;
use crate::config::{default_body, default_subject, EmailNoticeConfig};
use crate::template::{expand_placeholders, replace_placeholders};

verus! {

broadcast use vstd::string::group_string_axioms;

/// Sender, receiver, subject and body of a mail.
#[derive(Debug, Clone)]
pub struct MailContent {
    pub from: String,
    pub to: String,
    pub subject: String,
    pub body: String,
}

impl EmailNoticeConfig {
    /// The subject of the notice mail: the configured one, else the default.
    pub open spec fn spec_subject(&self) -> Seq<char> {
        match self.mail {
            Some(t) => t.subject@,
            None => default_subject(),
        }
    }

    /// The body template of the notice mail: the configured one, else the default.
    pub open spec fn spec_body(&self) -> Seq<char> {
        match self.mail {
            Some(t) => t.body@,
            None => default_body(),
        }
    }

    /// A mail from `Bot <username>` to `Master <receiver>` with the given
    /// subject and body.
    pub fn compose(&self, receiver: &str, subject: String, body: String) -> (r: MailContent)
        ensures
            r.from@ == "Bot <"@ + self.username@ + ">"@,
            r.to@ == "Master <"@ + receiver@ + ">"@,
            r.subject == subject,
            r.body == body,
    {
        let mut from = String::new();
        from.append("Bot <");
        from.append(self.username.as_str());
        from.append(">");
        let mut to = String::new();
        to.append("Master <");
        to.append(receiver);
        to.append(">");
        MailContent { from, to, subject, body }
    }

    /// The mail telling that the bot `bot_id` went offline: from
    /// `Bot <username>` to `Master <receiver>`, with the template's subject and
    /// its body where `{bot_id}` stands for `bot_id`.
    pub fn offline_mail(&self, bot_id: &str) -> (r: MailContent)
        ensures
            r.from@ == "Bot <"@ + self.username@ + ">"@,
            r.to@ == "Master <"@ + self.receiver@ + ">"@,
            r.subject@ == self.spec_subject(),
            r.body@ == expand_placeholders(self.spec_body(), seq![("bot_id"@, bot_id@)]),
    {
        let (subject, template_body) = match &self.mail {
            Some(t) => (t.subject.clone(), t.body.clone()),
            None => ("你的Bot掉线了".to_string(), "OneBot 掉线通知：\n\n({bot_id}) 掉线了，请及时处理。".to_string()),
        };
        let pairs: Vec<(&str, &str)> = vec![("bot_id", bot_id)];
        assert(crate::template::pairs_view(pairs@) =~= seq![("bot_id"@, bot_id@)]);
        let body = replace_placeholders(template_body.as_str(), pairs.as_slice());
        self.compose(self.receiver.as_str(), subject, body)
    }
}

} // verus!
