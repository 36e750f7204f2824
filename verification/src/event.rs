//! An event record: named fields plus an optional handle to the batch it
//! was ingested with. The handle names a batch tracker; the event never
//! owns the tracker, it only rides with it so a consuming sink knows which
//! batch to report on.

use vstd::prelude::*;

verus! {

/// The value bound to a key, taking the latest binding: a later `insert`
/// of the same key shadows an earlier one.
pub open spec fn lookup(fields: Seq<(String, String)>, k: Seq<char>) -> Option<Seq<char>>
    decreases fields.len(),
{
    if fields.len() == 0 {
        Option::None
    } else if fields.last().0@ == k {
        Option::Some(fields.last().1@)
    } else {
        lookup(fields.drop_last(), k)
    }
}

/// An event: named fields and an optional batch handle.
pub struct Event {
    fields: Vec<(String, String)>,
    batch: Option<usize>,
}

impl Event {
    /// The event's bindings, oldest first.
    pub closed spec fn fields_view(&self) -> Seq<(String, String)> {
        self.fields@
    }

    /// The batch handle the event rides with, if any.
    pub closed spec fn batch_view(&self) -> Option<usize> {
        self.batch
    }

    /// A fresh event holding the raw message under `message`, with no
    /// batch handle.
    pub fn from_message(msg: String) -> (r: Event)
        ensures
            r.fields_view().len() == 1,
            r.fields_view()[0].0@ == "message"@,
            r.fields_view()[0].1 == msg,
            lookup(r.fields_view(), "message"@) == Option::Some(msg@),
            r.batch_view() is None,
    {
        let fields = vec![("message".to_owned(), msg)];
        let r = Event { fields, batch: None };
        proof {
            assert(r.fields_view().drop_last() =~= Seq::<(String, String)>::empty());
        }
        r
    }

    /// Bind `key` to `value`, shadowing any earlier binding of the key;
    /// every other key's value is unchanged.
    pub fn insert(&mut self, key: String, value: String)
        ensures
            final(self).fields_view() == old(self).fields_view().push((key, value)),
            lookup(final(self).fields_view(), key@) == Option::Some(value@),
            forall|k2: Seq<char>|
                k2 != key@ ==> #[trigger] lookup(final(self).fields_view(), k2) == lookup(
                    old(self).fields_view(),
                    k2,
                ),
            final(self).batch_view() == old(self).batch_view(),
    {
        self.fields.push((key, value));
        proof {
            assert forall|k2: Seq<char>|
                k2 != self.fields@.last().0@ implies #[trigger] lookup(self.fields@, k2) == lookup(
                old(self).fields@,
                k2,
            ) by {
                assert(self.fields@.drop_last() =~= old(self).fields@);
            }
        }
    }

    /// The value bound to `key`, if any.
    pub fn get(&self, key: &str) -> (r: Option<&String>)
        ensures
            match r {
                Option::Some(v) => lookup(self.fields_view(), key@) == Option::Some(v@),
                Option::None => lookup(self.fields_view(), key@) is None,
            },
    {
        let mut found: Option<usize> = None;
        let mut i: usize = 0;
        proof {
            assert(self.fields@.take(0) =~= Seq::<(String, String)>::empty());
        }
        while i < self.fields.len()
            invariant
                i <= self.fields@.len(),
                match found {
                    Option::Some(fi) => fi < i && self.fields@[fi as int].0@ == key@ && lookup(
                        self.fields@.take(i as int),
                        key@,
                    ) == Option::Some(self.fields@[fi as int].1@),
                    Option::None => lookup(self.fields@.take(i as int), key@) is None,
                },
            decreases self.fields@.len() - i,
        {
            proof {
                assert(self.fields@.take(i + 1).drop_last() =~= self.fields@.take(i as int));
                assert(self.fields@.take(i + 1).last() == self.fields@[i as int]);
            }
            if crate::text::eq_str(self.fields[i].0.as_str(), key) {
                found = Some(i);
            }
            i = i + 1;
        }
        proof {
            assert(self.fields@.take(self.fields@.len() as int) =~= self.fields@);
        }
        match found {
            Some(fi) => Some(&self.fields[fi].1),
            None => None,
        }
    }

    /// The same event riding with the given batch: a consuming sink reports
    /// that batch's outcome once for every delivery unit holding it.
    pub fn with_batch(self, id: usize) -> (r: Event)
        ensures
            r.fields_view() == self.fields_view(),
            r.batch_view() == Option::Some(id),
    {
        Event { fields: self.fields, batch: Some(id) }
    }

    /// The batch handle the event rides with, if any.
    pub fn batch(&self) -> (r: Option<usize>)
        ensures
            r == self.batch_view(),
    {
        self.batch
    }
}

} // verus!
