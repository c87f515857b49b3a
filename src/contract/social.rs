//! Nicknames and messages.
use vstd::prelude::*;
use super::{ContractState, Error, TrustContract};
use crate::assoc::{find_key, lemma_assoc_at, lemma_assoc_push, lemma_assoc_update};
use crate::records::{default_nickname, MerchantView, Message, MessageView};

verus! {

impl TrustContract {
    /// `user` takes the nickname `nick`, which must be free or already theirs.
    pub fn set_nickname(&mut self, user: &String, nick: String) -> (r: Result<(), Error>)
        requires
            old(self).well_formed(),
        ensures
            final(self).well_formed(),
            old(self)@.latches(final(self)@),
            old(self)@.windows_stay_closed(final(self)@),
            old(self)@.nicknames.contains_key(nick@) && old(self)@.nicknames[nick@] != user@
                ==> r == Err::<(), Error>(Error::NicknameTaken) && final(self)@ == old(self)@,
            !(old(self)@.nicknames.contains_key(nick@) && old(self)@.nicknames[nick@] != user@)
                ==> r is Ok && final(self)@ == (ContractState {
                nicknames: old(self)@.nicknames.insert(nick@, user@),
                ..old(self)@.with_record(
                    user@,
                    MerchantView { nickname: nick@, ..old(self)@.record(user@) },
                )
            }),
    {
        let pos = find_key(&self.nick_names, &nick);
        if let Some(j) = pos {
            proof {
                lemma_assoc_at(self.nick_names@, self.nick_owners@, j as int);
            }
            if self.nick_owners[j] != *user {
                return Err(Error::NicknameTaken);
            }
        }
        let ghost old_owners = self.nick_owners@;
        match pos {
            Some(j) => {
                self.nick_owners[j] = user.clone();
                proof {
                    assert(self.nick_owners@ =~= old_owners.update(j as int, self.nick_owners@[j as int]));
                    lemma_assoc_update(self.nick_names@, old_owners, j as int, self.nick_owners@[j as int]);
                }
            },
            None => {
                let owner = user.clone();
                let key = nick.clone();
                proof {
                    lemma_assoc_push(self.nick_names@, old_owners, key, owner);
                }
                self.nick_names.push(key);
                self.nick_owners.push(owner);
            },
        }
        let ghost s0 = self@;
        let ghost nick_text = nick@;
        let i = self.ensure_record(user);
        let ghost old_recs = self.recs@;
        self.recs[i].nickname = nick;
        proof {
            assert(self.recs@ =~= old_recs.update(i as int, self.recs@[i as int]));
            lemma_assoc_update(self.ids@, old_recs, i as int, self.recs@[i as int]);
            assert(self@.merchants =~= s0.merchants.insert(
                user@,
                MerchantView { nickname: nick_text, ..s0.record(user@) },
            ));
        }
        Ok(())
    }

    /// The nickname of `user`; the default one where no record is stored.
    pub fn get_nickname(&self, user: &String) -> (r: String)
        requires
            self.well_formed(),
        ensures
            r@ == self@.record(user@).nickname,
    {
        match self.merchant_pos(user) {
            Some(i) => self.recs[i].nickname.clone(),
            None => {
                let r = String::from_str("User");
                proof {
                    reveal_strlit("User");
                    assert(r@ =~= default_nickname());
                }
                r
            },
        }
    }

    /// The owner of the nickname `nick`, if it is taken.
    pub fn get_address_by_nickname(&self, nick: &String) -> (r: Option<String>)
        requires
            self.well_formed(),
        ensures
            self@.nicknames.contains_key(nick@) ==> r is Some && r->Some_0@
                == self@.nicknames[nick@],
            !self@.nicknames.contains_key(nick@) ==> r is None,
    {
        match find_key(&self.nick_names, nick) {
            Some(j) => {
                proof {
                    lemma_assoc_at(self.nick_names@, self.nick_owners@, j as int);
                }
                Some(self.nick_owners[j].clone())
            },
            None => None,
        }
    }

    /// `from` sends `text` to `to` at `now`.
    pub fn send_message(&mut self, from: &String, to: &String, text: String, now: u64) -> (r:
        Result<(), Error>)
        requires
            old(self).well_formed(),
        ensures
            final(self).well_formed(),
            old(self)@.latches(final(self)@),
            old(self)@.windows_stay_closed(final(self)@),
            !old(self)@.merchants.contains_key(to@) ==> r == Err::<(), Error>(Error::NotFound)
                && final(self)@ == old(self)@,
            old(self)@.merchants.contains_key(to@) ==> r is Ok && final(self)@ == old(
                self)@.with_record(
                to@,
                MerchantView {
                    messages: old(self)@.merchants[to@].messages.push(
                        MessageView { sender: from@, text: text@, timestamp: now },
                    ),
                    ..old(self)@.merchants[to@]
                },
            ),
    {
        let i = match self.merchant_pos(to) {
            Some(i) => i,
            None => return Err(Error::NotFound),
        };
        let msg = Message { sender: from.clone(), text, timestamp: now };
        let ghost old_recs = self.recs@;
        let ghost old_msgs = self.recs@[i as int].messages@;
        self.recs[i].messages.push(msg);
        proof {
            assert(self.recs@[i as int].messages@.map_values(|m: Message| m@) =~= old_msgs.map_values(
                |m: Message| m@,
            ).push(msg@));
            assert(self.recs@ =~= old_recs.update(i as int, self.recs@[i as int]));
            lemma_assoc_update(self.ids@, old_recs, i as int, self.recs@[i as int]);
        }
        Ok(())
    }

    /// The messages that `user` has received, oldest first.
    pub fn get_messages(&self, user: &String) -> (r: Vec<Message>)
        requires
            self.well_formed(),
        ensures
            r@.map_values(|m: Message| m@) == self@.record(user@).messages,
    {
        let mut out: Vec<Message> = Vec::new();
        match self.merchant_pos(user) {
            Some(i) => {
                let msgs = &self.recs[i].messages;
                let mut k: usize = 0;
                while k < msgs.len()
                    invariant
                        k <= msgs@.len(),
                        out@.len() == k,
                        forall|j: int| 0 <= j < k ==> #[trigger] out@[j]@ == msgs@[j]@,
                    decreases msgs@.len() - k,
                {
                    out.push(msgs[k].duplicate());
                    k = k + 1;
                }
                assert(out@.map_values(|m: Message| m@) =~= msgs@.map_values(|m: Message| m@));
            },
            None => {
                assert(out@.map_values(|m: Message| m@) =~= Seq::<MessageView>::empty());
            },
        }
        out
    }
}

} // verus!
