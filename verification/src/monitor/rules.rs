//! Filter rules deciding which messages a monitor forwards.

use vstd::prelude::*;

use crate::strutil::contains_seq;

verus! {

/// A message filter: an optional required sender, an optional required
/// chat, and keywords of which at least one must occur — no keywords means
/// any content passes.
#[derive(Debug, Clone, PartialEq)]
pub struct FilterRule {
    pub sender_id: Option<i64>,
    pub chat_id: Option<i64>,
    pub keywords: Vec<String>,
}

/// Some keyword of the rule occurs in the given content.
pub open spec fn keyword_hit(keywords: Seq<String>, content: Option<Seq<char>>) -> bool {
    match content {
        Some(text) => exists|k: int| 0 <= k < keywords.len() && contains_seq(text, keywords[k]@),
        None => false,
    }
}

/// What the rule decides for a message with the given sender, chat, text
/// and caption.
pub open spec fn rule_matches(
    rule: FilterRule,
    sender_id: Option<i64>,
    chat_id: i64,
    text: Option<Seq<char>>,
    caption: Option<Seq<char>>,
) -> bool {
    &&& (match rule.sender_id {
        Some(required) => sender_id == Some(required),
        None => true,
    })
    &&& (match rule.chat_id {
        Some(required) => chat_id == required,
        None => true,
    })
    &&& (rule.keywords.len() == 0 || keyword_hit(rule.keywords@, text) || keyword_hit(
        rule.keywords@,
        caption,
    ))
}

impl FilterRule {
    /// Decides whether a message passes this rule, from its plain fields:
    /// the sender filter, then the chat filter, then the keyword filter
    /// over the text and the caption.
    pub fn check_fields(
        &self,
        sender_id: Option<i64>,
        chat_id: i64,
        text: Option<&String>,
        caption: Option<&String>,
    ) -> (r: bool)
        ensures
            r == rule_matches(
                *self,
                sender_id,
                chat_id,
                match text {
                    Some(t) => Some(t@),
                    None => None,
                },
                match caption {
                    Some(c) => Some(c@),
                    None => None,
                },
            ),
    {
        if let Some(required) = self.sender_id {
            match sender_id {
                Some(actual) => {
                    if actual != required {
                        return false;
                    }
                },
                None => {
                    return false;
                },
            }
        }
        if let Some(required) = self.chat_id {
            if chat_id != required {
                return false;
            }
        }
        if self.keywords.len() == 0 {
            return true;
        }
        let hit_text = match text {
            Some(t) => self.any_keyword_in(t),
            None => false,
        };
        if hit_text {
            return true;
        }
        let hit_caption = match caption {
            Some(c) => self.any_keyword_in(c),
            None => false,
        };
        hit_caption
    }

    /// Whether any keyword occurs in `content`.
    fn any_keyword_in(&self, content: &String) -> (r: bool)
        ensures
            r == keyword_hit(self.keywords@, Some(content@)),
    {
        let n = self.keywords.len();
        let mut k: usize = 0;
        while k < n
            invariant
                0 <= k <= n,
                n == self.keywords@.len(),
                forall|q: int|
                    0 <= q < k ==> !contains_seq(content@, (#[trigger] self.keywords@[q])@),
            decreases n - k,
        {
            if crate::strutil::contains_sub(content.as_str(), self.keywords[k].as_str()) {
                return true;
            }
            k = k + 1;
        }
        false
    }
}

/// One monitor rule: the filter, the chat matched messages are forwarded
/// to, and labels that help a maintainer read the rule file.
#[derive(Debug, Clone, PartialEq)]
pub struct MonitorRule {
    pub filter: FilterRule,
    pub forward_to: i64,
    pub user_nickname: Option<String>,
    pub chat_title: Option<String>,
}

} // verus!
