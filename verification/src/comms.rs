//! Communication with the operator: channels, notifications, approval
//! prompts, delivery receipts, and the in-memory bridge that records them.

use vstd::prelude::*;

use crate::outside::{new_id, now, ExJsonValue, Timestamp};
use crate::text::{find_key, key_position, lemma_key_position};

verus! {

/// A communication channel for notifications and approvals.
#[derive(Debug, Clone)]
pub enum Channel {
    /// Terminal inbox (default).
    Terminal,
    /// Slack channel or DM.
    Slack { channel: String },
    /// Discord channel.
    Discord { channel: String },
    /// Email address.
    Email { address: String },
    /// Voice call.
    Voice { number: String },
    /// Webhook URL.
    Webhook { url: String },
}

impl Channel {
    /// A copy of the channel.
    pub fn duplicate(&self) -> (c: Channel)
        ensures
            c == *self,
    {
        match self {
            Channel::Terminal => Channel::Terminal,
            Channel::Slack { channel } => Channel::Slack { channel: channel.clone() },
            Channel::Discord { channel } => Channel::Discord { channel: channel.clone() },
            Channel::Email { address } => Channel::Email { address: address.clone() },
            Channel::Voice { number } => Channel::Voice { number: number.clone() },
            Channel::Webhook { url } => Channel::Webhook { url: url.clone() },
        }
    }
}

/// Priority level for a notification.
#[derive(Debug, Clone, Copy, PartialEq, Eq, Structural, Hash)]
pub enum Priority {
    Low,
    Normal,
    High,
    Urgent,
}

/// A notification to send to the operator or a channel.
#[derive(Debug, Clone)]
pub struct Notification {
    /// Target channel.
    pub channel: Channel,
    /// Priority level.
    pub priority: Priority,
    /// Subject line.
    pub subject: String,
    /// Message body.
    pub body: String,
    /// Optional structured metadata.
    pub metadata: Option<serde_json::Value>,
}

/// An approval prompt to send via a communication channel.
#[derive(Debug, Clone)]
pub struct CommsApprovalPrompt {
    /// Target channel for the prompt.
    pub channel: Channel,
    /// Actor requesting approval.
    pub actor: String,
    /// Action class (green/yellow/orange/red).
    pub class: String,
    /// Description of the proposed action.
    pub action: String,
    /// Reason for the action.
    pub reason: String,
    /// Resources that will be touched.
    pub touched_resources: Vec<String>,
}

/// Receipt for a delivered notification.
#[derive(Debug, Clone)]
pub struct DeliveryReceipt {
    pub message_id: u128,
    pub channel: Channel,
    pub delivered_at: Timestamp,
    pub acknowledged: bool,
}

/// A bridge that records notifications and approvals in memory.
pub struct MockCommsBridge {
    message_ids: Vec<u128>,
    messages: Vec<Notification>,
    approvals: std::collections::HashMap<u128, Option<bool>>,
}

impl MockCommsBridge {
    /// The notifications sent, with their IDs, in order.
    pub closed spec fn sent(&self) -> Seq<(u128, Notification)> {
        Seq::new(self.message_ids@.len(), |i: int| (self.message_ids@[i], self.messages@[i]))
    }

    /// The IDs of the notifications sent, in order.
    pub closed spec fn sent_ids(&self) -> Seq<u128> {
        self.message_ids@
    }

    /// The approval requests, by ID, with their answers so far (`None`
    /// while pending).
    pub closed spec fn approvals(&self) -> Map<u128, Option<bool>> {
        self.approvals@
    }

    pub closed spec fn wf(&self) -> bool {
        self.message_ids@.len() == self.messages@.len()
    }

    /// A bridge with nothing sent.
    pub fn new() -> (b: MockCommsBridge)
        ensures
            b.wf(),
            b.sent_ids().len() == 0,
            b.approvals() == Map::<u128, Option<bool>>::empty(),
    {
        broadcast use vstd::std_specs::hash::group_hash_axioms;
        MockCommsBridge {
            message_ids: Vec::new(),
            messages: Vec::new(),
            approvals: std::collections::HashMap::new(),
        }
    }

    /// Send a notification; gives its fresh ID.
    pub fn notify(&mut self, msg: Notification) -> (id: u128)
        requires
            old(self).wf(),
        ensures
            final(self).wf(),
            final(self).sent() == old(self).sent().push((id, msg)),
            final(self).sent_ids() == old(self).sent_ids().push(id),
            final(self).approvals() == old(self).approvals(),
    {
        let id = new_id();
        let ghost s0 = self.sent();
        self.message_ids.push(id);
        self.messages.push(msg);
        assert(self.sent() =~= s0.push((id, msg)));
        id
    }

    /// Send an approval request; gives its fresh ID, pending.
    pub fn request_approval(&mut self, prompt: CommsApprovalPrompt) -> (id: u128)
        requires
            old(self).wf(),
        ensures
            final(self).wf(),
            final(self).sent() == old(self).sent(),
            final(self).sent_ids() == old(self).sent_ids(),
            final(self).approvals() == old(self).approvals().insert(id, None),
    {
        broadcast use vstd::std_specs::hash::group_hash_axioms;
        let id = new_id();
        self.approvals.insert(id, None);
        id
    }

    /// Answer a pending approval.
    pub fn answer_approval(&mut self, id: u128, approved: bool)
        requires
            old(self).wf(),
        ensures
            final(self).wf(),
            final(self).sent() == old(self).sent(),
            final(self).sent_ids() == old(self).sent_ids(),
            final(self).approvals() == old(self).approvals().insert(id, Some(approved)),
    {
        broadcast use vstd::std_specs::hash::group_hash_axioms;
        self.approvals.insert(id, Some(approved));
    }

    /// The answer to an approval: `None` while pending or when unknown.
    pub fn check_approval(&self, id: u128) -> (r: Option<bool>)
        ensures
            r == (if self.approvals().contains_key(id) {
                self.approvals()[id]
            } else {
                None
            }),
    {
        broadcast use vstd::std_specs::hash::group_hash_axioms;
        match self.approvals.get(&id) {
            Some(a) => *a,
            None => None,
        }
    }

    /// The receipt of a sent notification: delivered now, acknowledged, on
    /// its channel; `None` for an unknown ID.
    pub fn receipt(&self, id: u128) -> (r: Option<DeliveryReceipt>)
        requires
            self.wf(),
        ensures
            match key_position(self.sent_ids(), id) {
                Some(i) => r matches Some(rc) && rc.message_id == id && rc.channel == self.sent()[i].1.channel
                    && rc.acknowledged,
                None => r is None,
            },
    {
        proof {
            lemma_key_position(self.message_ids@, id);
        }
        match find_key(&self.message_ids, id) {
            Some(i) => Some(
                DeliveryReceipt {
                    message_id: id,
                    channel: self.messages[i].channel.duplicate(),
                    delivered_at: now(),
                    acknowledged: true,
                },
            ),
            None => None,
        }
    }
}


/// A notification just sent is found among the sent ones: it has a receipt.
pub proof fn law_sent_notification_has_receipt(sent_ids: Seq<u128>, id: u128)
    ensures
        key_position(sent_ids.push(id), id) is Some,
{
    lemma_key_position(sent_ids, id);
    lemma_key_position(sent_ids.push(id), id);
    if key_position(sent_ids.push(id), id) is None {
        assert(sent_ids.push(id)[sent_ids.len() as int] == id);
    }
}

impl Default for MockCommsBridge {
    /// A bridge that has sent nothing.
    fn default() -> (b: MockCommsBridge)
        ensures
            b.wf(),
            b.sent_ids().len() == 0,
            b.approvals() == Map::<u128, Option<bool>>::empty(),
    {
        MockCommsBridge::new()
    }
}

} // verus!
