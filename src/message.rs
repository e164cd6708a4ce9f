use vstd::prelude::*;

use crate::dns::class::Class;
use crate::dns::message::{Message, MessageModel};
use crate::dns::question_record::QuestionRecord;
use crate::dns::record::RecordModel;
use crate::dns::typ::Type;
use crate::query::Query;

verus! {

/// The question of a browse for `q`: a PTR question of class IN for
/// `{service}.{domain}`, without the unicast-response bit.
pub open spec fn browse_question(q: Query) -> RecordModel {
    RecordModel {
        name: q.text(),
        typ: Type::PTR,
        class: Class::IN,
        unicast_response: false,
        ttl: 0,
        data: seq![],
    }
}

/// The query message for `q`: ID 0, all flags 0 (QR = query, OPCODE =
/// query), and the single question `browse_question(q)`.
pub open spec fn query_model(q: Query) -> MessageModel {
    MessageModel {
        id: 0,
        flags: 0,
        qd_count: 1,
        an_count: 0,
        ns_count: 0,
        ar_count: 0,
        questions: seq![browse_question(q)],
        answers: seq![],
        authorities: seq![],
        additionals: seq![],
    }
}

/// QueryMessage builds DNS-SD query messages.
pub struct QueryMessage {}

impl QueryMessage {
    /// new creates the query message for `q`; see `query_model`.
    pub fn new(q: &Query) -> (r: Message)
        ensures
            r@ == query_model(*q),
    {
        let mut msg = Message::new();
        let mut qr = QuestionRecord::new();
        let name = q.to_string();
        qr.set_name(name.as_str());
        msg.add_question(qr);
        assert(msg@.questions =~= seq![browse_question(*q)]);
        msg
    }
}

} // verus!
