//! The notification sender's message shape: the extracted list is formatted
//! as a single structured message — one titled embed whose fields carry one
//! list entry each, with an empty field name and no inline placement. The
//! surrounding process delivers the built message to the output channel;
//! a delivery failure is its concern and never reaches the scheduler.

use vstd::prelude::*;

verus! {

/// One field of the structured message: an entry of the extracted list.
pub struct EmbedField {
    /// The field name; empty for every list entry.
    pub name: String,
    /// The field value: the entry text itself.
    pub value: String,
    /// Whether the field is placed inline; never requested here.
    pub inline: bool,
}

/// The structured message sent to the output channel.
pub struct Notification {
    /// The embed title.
    pub title: String,
    /// One field per list entry, in list order.
    pub fields: Vec<EmbedField>,
}

/// Builds the notification for an extracted list: the fixed title and one
/// field per entry, in order, each with an empty name, the entry text as
/// its value, and no inline placement.
pub fn build_notification(entries: &Vec<String>) -> (n: Notification)
    ensures
        n.title@ == "Latest SOCS List"@,
        n.fields@.len() == entries@.len(),
        forall|i: int|
            0 <= i < entries@.len() ==> {
                &&& (#[trigger] n.fields@[i]).name@ == Seq::<char>::empty()
                &&& n.fields@[i].value@ == entries@[i]@
                &&& !n.fields@[i].inline
            },
{
    let mut fields: Vec<EmbedField> = Vec::new();
    let n = entries.len();
    let mut i: usize = 0;
    while i < n
        invariant
            n == entries@.len(),
            i <= n,
            fields@.len() == i,
            forall|j: int|
                0 <= j < i ==> {
                    &&& (#[trigger] fields@[j]).name@ == Seq::<char>::empty()
                    &&& fields@[j].value@ == entries@[j]@
                    &&& !fields@[j].inline
                },
        decreases n - i,
    {
        let value = entries[i].clone();
        fields.push(EmbedField { name: String::new(), value, inline: false });
        i += 1;
    }
    Notification { title: "Latest SOCS List".to_owned(), fields }
}

} // verus!
