use vstd::prelude::*;

use crate::dns::class::Class;
use crate::dns::record::{Record, RecordModel};
use crate::dns::typ::Type;

verus! {

/// QuestionRecord builds the question of a DNS-SD browse.
pub struct QuestionRecord {}

impl QuestionRecord {
    /// new creates an unnamed PTR question of class IN.
    pub fn new() -> (r: Record)
        ensures
            r@ == (RecordModel {
                name: seq![],
                typ: Type::PTR,
                class: Class::IN,
                unicast_response: false,
                ttl: 0,
                data: seq![],
            }),
    {
        let mut record = Record::new();
        record.set_typ(Type::PTR);
        record.set_class(Class::IN);
        record
    }
}

} // verus!
