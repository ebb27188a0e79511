//! Conversation management: creation on first use, activity tracking,
//! expiry, and statistics.

use vstd::prelude::*;
use crate::base::MessageCount;
use crate::config::RouterConfig;
use crate::errors::ConversationError;
use crate::ids::{AgentId, ConversationId};
use crate::message_router::domain_types::{
    dedup_agents, first_occurrences, Conversation, ConversationView, FipaMessage,
};
use crate::table::IdTable;
use crate::time::{clock_now_millis, elapsed_millis, read_clock, ClockReading, ConversationCreatedAt, MessageTimestamp};

verus! {

/// Whether a conversation last active at `last` has timed out at `now`:
/// more than `timeout_ms` milliseconds have passed. A clock that reads
/// earlier than the last activity never times a conversation out.
pub open spec fn conversation_expired(last: u64, timeout_ms: u64, now: u64) -> bool {
    now >= last && now - last > timeout_ms
}

/// Milliseconds from creation to last activity, or 0 where the last
/// activity reads earlier than the creation.
pub fn calculate_conversation_duration_ms(created_at: u64, last_activity: u64) -> (d: u64)
    ensures
        d == elapsed_millis(created_at, last_activity),
{
    if last_activity >= created_at {
        last_activity - created_at
    } else {
        0
    }
}

/// The average of a total over a number of conversations; 0 for none.
pub fn calculate_average_duration(total_duration_ms: u64, conversation_count: usize) -> (a: u64)
    ensures
        conversation_count > 0 ==> a == total_duration_ms / (conversation_count as u64),
        conversation_count == 0 ==> a == 0,
{
    if conversation_count > 0 {
        total_duration_ms / (conversation_count as u64)
    } else {
        0
    }
}

/// Whether a conversation last active at `last` has timed out at `now`.
pub fn is_conversation_expired_at(last_activity: MessageTimestamp, timeout_ms: u64, now: u64) -> (b: bool)
    ensures
        b == conversation_expired(last_activity.millis, timeout_ms, now),
{
    now >= last_activity.millis && now - last_activity.millis > timeout_ms
}

/// Whether a conversation last active at `last` has timed out by the system
/// clock: the answer of `is_conversation_expired_at` for the time read.
pub fn is_conversation_expired(last_activity: MessageTimestamp, timeout_ms: u64) -> (b: bool)
    ensures
        exists|now: u64| b == #[trigger] conversation_expired(last_activity.millis, timeout_ms, now),
{
    is_conversation_expired_at(last_activity, timeout_ms, clock_now_millis())
}

/// The value, or `u32::MAX` where it does not fit in 32 bits.
pub fn safe_u64_to_u32(value: u64) -> (r: u32)
    ensures
        r == if value > u32::MAX { u32::MAX as u64 } else { value },
{
    if value > 4_294_967_295u64 {
        4_294_967_295u32
    } else {
        value as u32
    }
}

/// Adds two durations, staying at `u64::MAX` where the sum does not fit.
pub open spec fn sat_add(a: u64, b: u64) -> u64 {
    if a + b > u64::MAX {
        u64::MAX
    } else {
        (a + b) as u64
    }
}

/// Sum of the durations of the conversations, added in order and staying at
/// `u64::MAX` once reached.
pub open spec fn duration_total(s: Seq<ConversationView>) -> u64
    decreases s.len(),
{
    if s.len() == 0 {
        0
    } else {
        sat_add(
            duration_total(s.drop_last()),
            elapsed_millis(s.last().created_at.millis, s.last().last_activity.millis),
        )
    }
}

/// Sum of the message counts of the conversations.
pub open spec fn message_total(s: Seq<ConversationView>) -> int
    decreases s.len(),
{
    if s.len() == 0 {
        0
    } else {
        message_total(s.drop_last()) + s.last().message_count.count
    }
}

/// Number of conversations with exactly `p` participants.
pub open spec fn with_participant_count(s: Seq<ConversationView>, p: int) -> nat
    decreases s.len(),
{
    if s.len() == 0 {
        0
    } else {
        with_participant_count(s.drop_last(), p) + if s.last().participants.len() == p {
            1nat
        } else {
            0nat
        }
    }
}

/// Whether a distribution lists the participant count `q`.
pub open spec fn lists_count(dist: Seq<(usize, usize)>, q: int) -> bool {
    exists|b: int| 0 <= b < dist.len() && dist[b].0 == q
}

/// Whether a distribution lists each participant count that some
/// conversation of `s` has.
pub open spec fn covers(dist: Seq<(usize, usize)>, s: Seq<ConversationView>) -> bool {
    forall|q: int| #[trigger] with_participant_count(s, q) > 0 ==> lists_count(dist, q)
}

/// Statistics over the active conversations.
#[derive(Debug, Clone)]
pub struct ConversationStats {
    /// Number of active conversations.
    pub total_active: usize,
    /// Conversations created so far, counted up to one million.
    pub total_created: MessageCount,
    /// Average duration in milliseconds, from creation to last activity.
    pub average_duration_ms: u64,
    /// Sum of the message counts of the active conversations.
    pub total_message_count: u64,
    /// Pairs of a participant count and the number of conversations with it.
    pub participants_distribution: Vec<(usize, usize)>,
}

/// Conversation manager: holds the active conversations by identifier.
pub struct ConversationManagerImpl {
    conversations: IdTable<Conversation>,
    total_created: u64,
    max_participants: u8,
    timeout_ms: u64,
    last_cleanup_reading: Ghost<Option<ClockReading>>,
}

impl ConversationManagerImpl {
    /// Well-formedness: the table is well formed and each conversation is
    /// kept under its own identifier.
    pub closed spec fn wf(self) -> bool {
        &&& self.conversations.wf()
        &&& forall|k: u128| #[trigger]
            self.conversations.map().contains_key(k) ==> self.conversations.map()[k].id.value == k
    }

    /// The active conversations by identifier value.
    pub closed spec fn conversations(self) -> Map<u128, ConversationView> {
        self.conversations.map().map_values(|c: Conversation| c@)
    }

    /// The active conversations in the order they were stored.
    pub closed spec fn entries(self) -> Seq<ConversationView> {
        self.conversations.entries().map_values(|e: (u128, Conversation)| e.1@)
    }

    /// Number of conversations created so far (wrapping at `u64::MAX`).
    pub closed spec fn total_created(self) -> u64 {
        self.total_created
    }

    /// Largest number of participants a new conversation may have.
    pub closed spec fn max_participants(self) -> nat {
        self.max_participants as nat
    }

    /// Time without activity after which a conversation expires.
    pub closed spec fn timeout_ms(self) -> u64 {
        self.timeout_ms
    }

    proof fn lemma_views(self)
        requires
            self.wf(),
        ensures
            self.entries().len() == self.conversations().dom().len(),
            self.conversations().dom().finite(),
            forall|i: int|
                0 <= i < self.entries().len() ==> #[trigger] self.conversations().contains_key(
                    self.conversations.entries()[i].0,
                ) && self.conversations()[self.conversations.entries()[i].0] == self.entries()[i],
    {
        self.conversations.lemma_wf();
        assert(self.conversations().dom() =~= self.conversations.map().dom());
    }

    /// The clock reading at which the last clock-based cleanup measured
    /// inactivity.
    pub closed spec fn last_cleanup_reading(self) -> Option<ClockReading> {
        self.last_cleanup_reading@
    }

    /// A manager with no conversations, limited by the configuration.
    pub fn new(config: &RouterConfig) -> (m: Self)
        ensures
            m.wf(),
            m.conversations() == Map::<u128, ConversationView>::empty(),
            m.total_created() == 0,
            m.max_participants() == config.max_conversation_participants@,
            m.timeout_ms() == config.conversation_timeout_ms@,
    {
        let m = ConversationManagerImpl {
            conversations: IdTable::new(),
            total_created: 0,
            max_participants: config.max_conversation_participants.into_inner(),
            timeout_ms: config.conversation_timeout_ms.as_u64(),
            last_cleanup_reading: Ghost(None),
        };
        assert(m.conversations() =~= Map::<u128, ConversationView>::empty());
        m
    }

    /// Number of active conversations.
    pub fn len(&self) -> (n: usize)
        requires
            self.wf(),
        ensures
            n == self.conversations().dom().len(),
    {
        proof {
            self.lemma_views();
        }
        self.conversations.len()
    }

    /// Number of conversations created so far.
    pub fn total_created_count(&self) -> (n: u64)
        ensures
            n == self.total_created(),
    {
        self.total_created
    }

    /// The conversation with this identifier, where it is active.
    pub fn get(&self, conversation_id: ConversationId) -> (r: Option<Conversation>)
        requires
            self.wf(),
        ensures
            r is Some <==> self.conversations().contains_key(conversation_id.value),
            r matches Some(c) ==> c@ == self.conversations()[conversation_id.value],
    {
        match self.conversations.get(conversation_id.value) {
            Some(c) => Some(c.clone()),
            None => None,
        }
    }

    /// Returns the conversation with this identifier; creates it at `now`
    /// where it is not active yet, refusing more participants than allowed.
    pub fn get_or_create_conversation_at(
        &mut self,
        conversation_id: ConversationId,
        participants: Vec<AgentId>,
        now: u64,
    ) -> (r: Result<Conversation, ConversationError>)
        requires
            old(self).wf(),
        ensures
            final(self).wf(),
            final(self).max_participants() == old(self).max_participants(),
            final(self).timeout_ms() == old(self).timeout_ms(),
            old(self).conversations().contains_key(conversation_id.value) ==> {
                &&& r matches Ok(c) && c@ == old(self).conversations()[conversation_id.value]
                &&& final(self).conversations() == old(self).conversations()
                &&& final(self).total_created() == old(self).total_created()
            },
            !old(self).conversations().contains_key(conversation_id.value) && first_occurrences(
                participants@,
            ).len() > old(self).max_participants() ==> {
                &&& r matches Err(ConversationError::TooManyParticipants { count, max }) && count
                    == first_occurrences(participants@).len() && max == old(self).max_participants()
                &&& final(self).conversations() == old(self).conversations()
                &&& final(self).total_created() == old(self).total_created()
            },
            !old(self).conversations().contains_key(conversation_id.value) && first_occurrences(
                participants@,
            ).len() <= old(self).max_participants() ==> {
                let created = ConversationView {
                    id: conversation_id,
                    participants: first_occurrences(participants@),
                    created_at: ConversationCreatedAt { millis: now },
                    last_activity: MessageTimestamp { millis: now },
                    message_count: MessageCount { count: 0 },
                };
                &&& r matches Ok(c) && c@ == created
                &&& final(self).conversations() == old(self).conversations().insert(
                    conversation_id.value,
                    created,
                )
                &&& final(self).total_created() == (old(self).total_created() + 1) % 0x1_0000_0000_0000_0000
            },
    {
        match self.conversations.get(conversation_id.value) {
            Some(c) => {
                return Ok(c.clone());
            },
            None => {},
        }
        let participants = dedup_agents(&participants);
        let max = self.max_participants as usize;
        if participants.len() > max {
            return Err(
                ConversationError::TooManyParticipants { count: participants.len(), max },
            );
        }
        let conversation = Conversation::new_at(
            conversation_id,
            participants,
            ConversationCreatedAt::new(now),
            MessageTimestamp::new(now),
        );
        let ghost old_map = self.conversations.map();
        self.conversations.insert_new(conversation_id.value, conversation.clone());
        self.total_created = self.total_created.wrapping_add(1);
        proof {
            assert forall|k: u128| #[trigger]
                self.conversations.map().contains_key(k) implies self.conversations.map()[k].id.value
                == k by {
                if k != conversation_id.value {
                    assert(old_map.contains_key(k));
                }
            }
            assert(self.conversations() =~= old(self).conversations().insert(
                conversation_id.value,
                conversation@,
            ));
        }
        Ok(conversation)
    }

    /// Whether `after` and `r` are what `get_or_create_conversation_at`
    /// gives on `before` at time `now`: the active conversation, unchanged
    /// state; a refusal naming the participant count and limit, unchanged
    /// state; or a new conversation stored under its identifier, with the
    /// created counter one higher (wrapping).
    pub open spec fn got_or_created_at(
        before: Self,
        after: Self,
        conversation_id: ConversationId,
        participants: Seq<AgentId>,
        now: u64,
        r: Result<Conversation, ConversationError>,
    ) -> bool {
        &&& after.max_participants() == before.max_participants()
        &&& after.timeout_ms() == before.timeout_ms()
        &&& before.conversations().contains_key(conversation_id.value) ==> {
            &&& r matches Ok(c) && c@ == before.conversations()[conversation_id.value]
            &&& after.conversations() == before.conversations()
            &&& after.total_created() == before.total_created()
        }
        &&& !before.conversations().contains_key(conversation_id.value) && first_occurrences(participants).len()
            > before.max_participants() ==> {
            &&& r matches Err(ConversationError::TooManyParticipants { count, max }) && count
                == first_occurrences(participants).len() && max == before.max_participants()
            &&& after.conversations() == before.conversations()
            &&& after.total_created() == before.total_created()
        }
        &&& !before.conversations().contains_key(conversation_id.value) && first_occurrences(participants).len()
            <= before.max_participants() ==> {
            let created = ConversationView {
                id: conversation_id,
                participants: first_occurrences(participants),
                created_at: ConversationCreatedAt { millis: now },
                last_activity: MessageTimestamp { millis: now },
                message_count: MessageCount { count: 0 },
            };
            &&& r matches Ok(c) && c@ == created
            &&& after.conversations() == before.conversations().insert(conversation_id.value, created)
            &&& after.total_created() == (before.total_created() + 1) % 0x1_0000_0000_0000_0000
        }
    }

    /// Returns the conversation with this identifier, creating it where it
    /// is not active yet; the creation time is read from the system clock.
    /// What it does is what `get_or_create_conversation_at` does at the time
    /// read.
    pub fn get_or_create_conversation(
        &mut self,
        conversation_id: ConversationId,
        participants: Vec<AgentId>,
    ) -> (r: Result<Conversation, ConversationError>)
        requires
            old(self).wf(),
        ensures
            final(self).wf(),
            exists|now: u64| #[trigger] Self::got_or_created_at(
                *old(self),
                *final(self),
                conversation_id,
                participants@,
                now,
                r,
            ),
            old(self).conversations().contains_key(conversation_id.value) ==> (r matches Ok(c)
                && c@ == old(self).conversations()[conversation_id.value]),
            !old(self).conversations().contains_key(conversation_id.value) && first_occurrences(participants@).len()
                > old(self).max_participants() ==> r is Err,
            !old(self).conversations().contains_key(conversation_id.value) && first_occurrences(participants@).len()
                <= old(self).max_participants() ==> (r matches Ok(c) && c.id == conversation_id
                && c.participants@ == first_occurrences(participants@) && c.message_count.count == 0),
    {
        let ghost before = *self;
        let ghost names = participants@;
        let now = clock_now_millis();
        let r = self.get_or_create_conversation_at(conversation_id, participants, now);
        assert(Self::got_or_created_at(before, *self, conversation_id, names, now, r));
        r
    }

    /// Records a message of a conversation at time `now`. Where the
    /// conversation is not active, it is created first with the message's
    /// sender and receiver as participants.
    pub fn update_conversation_at(
        &mut self,
        conversation_id: ConversationId,
        message: &FipaMessage,
        now: u64,
    ) -> (r: Result<(), ConversationError>)
        requires
            old(self).wf(),
        ensures
            final(self).wf(),
            final(self).max_participants() == old(self).max_participants(),
            final(self).timeout_ms() == old(self).timeout_ms(),
            old(self).conversations().contains_key(conversation_id.value) ==> {
                let c = old(self).conversations()[conversation_id.value];
                &&& r is Ok
                &&& final(self).conversations() == old(self).conversations().insert(
                    conversation_id.value,
                    ConversationView {
                        message_count: c.message_count.spec_increment(),
                        last_activity: MessageTimestamp { millis: now },
                        ..c
                    },
                )
                &&& final(self).total_created() == old(self).total_created()
            },
            !old(self).conversations().contains_key(conversation_id.value)
                && old(self).max_participants() < 2 ==> {
                &&& r matches Err(ConversationError::TooManyParticipants { count, max })
                    && count == 2 && max == old(self).max_participants()
                &&& final(self).conversations() == old(self).conversations()
            },
            !old(self).conversations().contains_key(conversation_id.value)
                && old(self).max_participants() >= 2 ==> {
                &&& r is Ok
                &&& final(self).conversations() == old(self).conversations().insert(
                    conversation_id.value,
                    ConversationView {
                        id: conversation_id,
                        participants: seq![
                            message.participants.sender_id(),
                            message.participants.receiver_id(),
                        ],
                        created_at: ConversationCreatedAt { millis: now },
                        last_activity: MessageTimestamp { millis: now },
                        message_count: MessageCount { count: 1 },
                    },
                )
                &&& final(self).total_created() == (old(self).total_created() + 1) % 0x1_0000_0000_0000_0000
            },
    {
        let ghost old_map = self.conversations.map();
        match self.conversations.find(conversation_id.value) {
            Some(i) => {
                let (_, current) = self.conversations.entry_at(i);
                let mut c = current.clone();
                c.add_message_at(message, MessageTimestamp::new(now));
                self.conversations.set_at(i, c);
                proof {
                    assert forall|k: u128| #[trigger]
                        self.conversations.map().contains_key(k) implies self.conversations.map()[k].id.value
                        == k by {
                        if k != conversation_id.value {
                            assert(old_map.contains_key(k));
                        }
                    }
                    assert(self.conversations() =~= old(self).conversations().insert(
                        conversation_id.value,
                        c@,
                    ));
                }
                Ok(())
            },
            None => {
                let mut participants: Vec<AgentId> = Vec::new();
                participants.push(*message.sender());
                participants.push(*message.receiver());
                assert(participants@ =~= seq![
                    message.participants.sender_id(),
                    message.participants.receiver_id(),
                ]);
                message.participants.distinct_fact();
                proof {
                    let two = participants@;
                    reveal_with_fuel(first_occurrences, 3);
                    assert(two.drop_last() =~= seq![message.participants.sender_id()]);
                    assert(two.drop_last().drop_last() =~= Seq::<AgentId>::empty());
                    assert(first_occurrences(two.drop_last()) =~= seq![message.participants.sender_id()]);
                    assert(first_occurrences(two) =~= two);
                }
                let mut c = match self.get_or_create_conversation_at(
                    conversation_id,
                    participants,
                    now,
                ) {
                    Ok(c) => c,
                    Err(e) => return Err(e),
                };
                let ghost mid_views = self.conversations();
                assert(mid_views == old(self).conversations().insert(
                    conversation_id.value,
                    c@,
                ));
                c.add_message_at(message, MessageTimestamp::new(now));
                let ghost mid_map = self.conversations.map();
                let ghost cv = c@;
                self.conversations.upsert(conversation_id.value, c);
                assert(self.conversations.map() == mid_map.insert(conversation_id.value, c));
                proof {
                    assert forall|k: u128| #[trigger]
                        self.conversations.map().contains_key(k) implies self.conversations.map()[k].id.value
                        == k by {
                        if k != conversation_id.value {
                            assert(mid_map.contains_key(k));
                        }
                    }
                    assert(self.conversations() =~= mid_views.insert(conversation_id.value, cv));
                    assert(self.conversations() =~= old(self).conversations().insert(
                        conversation_id.value,
                        cv,
                    ));
                }
                Ok(())
            },
        }
    }

    /// Whether `after` and `r` are what `update_conversation_at` gives on
    /// `before` at time `now`.
    pub open spec fn updated_at(
        before: Self,
        after: Self,
        conversation_id: ConversationId,
        message: FipaMessage,
        now: u64,
        r: Result<(), ConversationError>,
    ) -> bool {
        &&& after.max_participants() == before.max_participants()
        &&& after.timeout_ms() == before.timeout_ms()
        &&& before.conversations().contains_key(conversation_id.value) ==> {
            let c = before.conversations()[conversation_id.value];
            &&& r is Ok
            &&& after.conversations() == before.conversations().insert(
                conversation_id.value,
                ConversationView {
                    message_count: c.message_count.spec_increment(),
                    last_activity: MessageTimestamp { millis: now },
                    ..c
                },
            )
            &&& after.total_created() == before.total_created()
        }
        &&& !before.conversations().contains_key(conversation_id.value)
            && before.max_participants() < 2 ==> {
            &&& r matches Err(ConversationError::TooManyParticipants { count, max })
                && count == 2 && max == before.max_participants()
            &&& after.conversations() == before.conversations()
        }
        &&& !before.conversations().contains_key(conversation_id.value)
            && before.max_participants() >= 2 ==> {
            &&& r is Ok
            &&& after.conversations() == before.conversations().insert(
                conversation_id.value,
                ConversationView {
                    id: conversation_id,
                    participants: seq![
                        message.participants.sender_id(),
                        message.participants.receiver_id(),
                    ],
                    created_at: ConversationCreatedAt { millis: now },
                    last_activity: MessageTimestamp { millis: now },
                    message_count: MessageCount { count: 1 },
                },
            )
            &&& after.total_created() == (before.total_created() + 1) % 0x1_0000_0000_0000_0000
        }
    }

    /// Records a message of a conversation; the time is read from the system clock.
    pub fn update_conversation(
        &mut self,
        conversation_id: ConversationId,
        message: &FipaMessage,
    ) -> (r: Result<(), ConversationError>)
        requires
            old(self).wf(),
        ensures
            final(self).wf(),
            old(self).conversations().contains_key(conversation_id.value) ==> r is Ok,
            !old(self).conversations().contains_key(conversation_id.value) ==> (r is Ok
                <==> old(self).max_participants() >= 2),
            final(self).conversations().dom() == (if r is Ok {
                old(self).conversations().dom().insert(conversation_id.value)
            } else {
                old(self).conversations().dom()
            }),
            exists|now: u64| #[trigger] Self::updated_at(*old(self), *final(self), conversation_id, *message, now, r),
    {
        let ghost before = *self;
        let now = clock_now_millis();
        let r = self.update_conversation_at(conversation_id, message, now);
        assert(Self::updated_at(before, *self, conversation_id, *message, now, r));
        r
    }

    /// The active conversations that an agent takes part in, in storage order.
    pub fn get_agent_conversations(&self, agent_id: AgentId) -> (r: Vec<Conversation>)
        requires
            self.wf(),
        ensures
            r@.map_values(|c: Conversation| c@) == self.entries().filter(
                |c: ConversationView| c.participants.contains(agent_id),
            ),
    {
        let ghost pred = |c: ConversationView| c.participants.contains(agent_id);
        let mut r: Vec<Conversation> = Vec::new();
        let n = self.conversations.len();
        for i in 0..n
            invariant
                n == self.conversations.entries().len(),
                self.wf(),
                pred == (|c: ConversationView| c.participants.contains(agent_id)),
                r@.map_values(|c: Conversation| c@) == self.entries().take(i as int).filter(pred),
        {
            let (_, c) = self.conversations.entry_at(i);
            let ghost before = r@.map_values(|c: Conversation| c@);
            let ghost r0 = r@;
            let keep = c.has_participant(agent_id);
            if keep {
                let copy = c.clone();
                r.push(copy);
                assert(r@.map_values(|c: Conversation| c@) =~= before.push(c@));
            } else {
                assert(r@.map_values(|c: Conversation| c@) =~= before);
            }
            proof {
                reveal_with_fuel(Seq::<ConversationView>::filter, 2);
                let s1 = self.entries().take(i + 1);
                assert(s1.drop_last() =~= self.entries().take(i as int));
                assert(s1.last() == c@);
                assert(pred(c@) == keep);
                assert(s1.filter(pred) == (if pred(s1.last()) {
                    s1.drop_last().filter(pred).push(s1.last())
                } else {
                    s1.drop_last().filter(pred)
                }));
            }
        }
        assert(self.entries().take(n as int) =~= self.entries());
        r
    }

    /// Removes the conversations that have timed out at `now` and reports
    /// how many were removed.
    pub fn cleanup_expired_conversations_at(&mut self, now: u64) -> (removed: usize)
        requires
            old(self).wf(),
        ensures
            final(self).wf(),
            final(self).total_created() == old(self).total_created(),
            final(self).max_participants() == old(self).max_participants(),
            final(self).timeout_ms() == old(self).timeout_ms(),
            forall|k: u128|
                #[trigger] final(self).conversations().contains_key(k) <==> (old(
                    self,
                ).conversations().contains_key(k) && !conversation_expired(
                    old(self).conversations()[k].last_activity.millis,
                    old(self).timeout_ms(),
                    now,
                )),
            forall|k: u128| #[trigger]
                final(self).conversations().contains_key(k) ==> final(self).conversations()[k]
                    == old(self).conversations()[k],
            removed == old(self).conversations().dom().len() - final(self).conversations().dom().len(),
    {
        let ghost old_map = self.conversations.map();
        let mut kept: IdTable<Conversation> = IdTable::new();
        let n = self.conversations.len();
        let timeout = self.timeout_ms;
        proof {
            self.conversations.lemma_wf();
        }
        for i in 0..n
            invariant
                n == self.conversations.entries().len(),
                self.conversations.wf(),
                self.conversations.map() == old_map,
                timeout == self.timeout_ms,
                kept.wf(),
                forall|k: u128| #[trigger]
                    kept.map().contains_key(k) <==> exists|j: int|
                        0 <= j < i && self.conversations.entries()[j].0 == k
                            && !conversation_expired(
                            self.conversations.entries()[j].1.last_activity.millis,
                            timeout,
                            now,
                        ),
                forall|k: u128| #[trigger]
                    kept.map().contains_key(k) ==> kept.map()[k]@ == old_map[k]@,
                kept.entries().len() <= i,
        {
            let (k, c) = self.conversations.entry_at(i);
            proof {
                self.conversations.lemma_wf();
            }
            if !is_conversation_expired_at(c.last_activity, timeout, now) {
                assert(!kept.map().contains_key(k)) by {
                    if kept.map().contains_key(k) {
                        let j = choose|j: int|
                            0 <= j < i && self.conversations.entries()[j].0 == k
                                && !conversation_expired(
                                self.conversations.entries()[j].1.last_activity.millis,
                                timeout,
                                now,
                            );
                        assert(self.conversations.entries()[j].0 == self.conversations.entries()[i as int].0);
                    }
                }
                kept.insert_new(k, c.clone());
            }
            proof {
                kept.lemma_wf();
                assert forall|x: u128| #[trigger]
                    kept.map().contains_key(x) <==> exists|j: int|
                        0 <= j < i + 1 && self.conversations.entries()[j].0 == x
                            && !conversation_expired(
                            self.conversations.entries()[j].1.last_activity.millis,
                            timeout,
                            now,
                        ) by {
                    if x == k && !conversation_expired(c.last_activity.millis, timeout, now) {
                        assert(self.conversations.entries()[i as int].0 == x);
                    }
                }
            }
        }
        let final_len = kept.len();
        proof {
            kept.lemma_wf();
            assert forall|k: u128| #[trigger]
                kept.map().contains_key(k) <==> (old_map.contains_key(k) && !conversation_expired(
                    old_map[k].last_activity.millis,
                    timeout,
                    now,
                )) by {
                if old_map.contains_key(k) {
                    let j = choose|j: int|
                        0 <= j < n && self.conversations.entries()[j].0 == k;
                    assert(self.conversations.map()[k] == self.conversations.entries()[j].1);
                }
                if kept.map().contains_key(k) {
                    let j = choose|j: int|
                        0 <= j < n && self.conversations.entries()[j].0 == k
                            && !conversation_expired(
                            self.conversations.entries()[j].1.last_activity.millis,
                            timeout,
                            now,
                        );
                    assert(self.conversations.map()[k] == self.conversations.entries()[j].1);
                }
            }
            assert(kept.map().dom().subset_of(old_map.dom()));
            vstd::set_lib::lemma_len_subset(kept.map().dom(), old_map.dom());
        }
        let removed = n - final_len;
        self.conversations = kept;
        proof {
            assert(self.conversations().dom() =~= self.conversations.map().dom());
            assert(old(self).conversations().dom() =~= old_map.dom());
        }
        removed
    }

    /// Whether `after` is `before` with the conversations that have timed
    /// out at `now` removed and everything else kept.
    pub open spec fn cleaned_up_at(before: Self, after: Self, now: u64) -> bool {
        &&& after.total_created() == before.total_created()
        &&& after.max_participants() == before.max_participants()
        &&& after.timeout_ms() == before.timeout_ms()
        &&& forall|k: u128|
            #[trigger] after.conversations().contains_key(k) <==> (before.conversations().contains_key(k)
                && !conversation_expired(before.conversations()[k].last_activity.millis, before.timeout_ms(), now))
        &&& forall|k: u128| #[trigger]
            after.conversations().contains_key(k) ==> after.conversations()[k] == before.conversations()[k]
    }

    /// A cleanup measured at `now` keeps every conversation active within
    /// the timeout before `now`, unchanged, and removes every conversation
    /// idle for longer than the timeout; it adds none.
    pub proof fn lemma_cleanup_keeps_recent(before: Self, after: Self, now: u64, k: u128)
        requires
            Self::cleaned_up_at(before, after, now),
        ensures
            after.conversations().contains_key(k) ==> before.conversations().contains_key(k),
            before.conversations().contains_key(k) && (now < before.conversations()[k].last_activity.millis
                || now - before.conversations()[k].last_activity.millis <= before.timeout_ms()) ==> (
            after.conversations().contains_key(k) && after.conversations()[k] == before.conversations()[k]),
            before.conversations().contains_key(k) && now >= before.conversations()[k].last_activity.millis
                && now - before.conversations()[k].last_activity.millis > before.timeout_ms()
                ==> !after.conversations().contains_key(k),
    {
        if after.conversations().contains_key(k) {
            assert(before.conversations().contains_key(k));
        }
    }

    /// Removes the conversations that have timed out by the system clock:
    /// what `cleanup_expired_conversations_at` does for the time read.
    pub fn cleanup_expired_conversations(&mut self) -> (removed: usize)
        requires
            old(self).wf(),
        ensures
            final(self).wf(),
            final(self).conversations().dom().subset_of(old(self).conversations().dom()),
            exists|now: u64| #[trigger] Self::cleaned_up_at(*old(self), *final(self), now),
            removed == old(self).conversations().dom().len() - final(self).conversations().dom().len(),
            final(self).last_cleanup_reading() matches Some(c) && Self::cleaned_up_at(
                *old(self),
                *final(self),
                c.value(),
            ),
    {
        let ghost before = *self;
        let reading = read_clock();
        let now = reading.millis();
        let removed = self.cleanup_expired_conversations_at(now);
        self.last_cleanup_reading = Ghost(Some(reading));
        assert(Self::cleaned_up_at(before, *self, now));
        removed
    }

    /// Statistics over the active conversations. The sum of their message
    /// counts must fit in 64 bits.
    pub fn get_conversation_stats(&self) -> (s: ConversationStats)
        requires
            self.wf(),
            message_total(self.entries()) <= u64::MAX,
        ensures
            s.total_active == self.entries().len(),
            s.total_created.count == if self.total_created() > 1_000_000 {
                1_000_000
            } else {
                self.total_created()
            },
            s.average_duration_ms == if self.entries().len() > 0 {
                duration_total(self.entries()) / (self.entries().len() as u64)
            } else {
                0
            },
            s.total_message_count == message_total(self.entries()),
            forall|i: int|
                0 <= i < s.participants_distribution@.len() ==> #[trigger] s.participants_distribution@[i].1
                    == with_participant_count(
                    self.entries(),
                    s.participants_distribution@[i].0 as int,
                ),
            forall|i: int, j: int|
                0 <= i < s.participants_distribution@.len() && 0 <= j
                    < s.participants_distribution@.len() && i != j
                    ==> s.participants_distribution@[i].0 != s.participants_distribution@[j].0,
            forall|i: int|
                0 <= i < s.participants_distribution@.len() ==> #[trigger] s.participants_distribution@[i].1 > 0,
            covers(s.participants_distribution@, self.entries()),
    {
        let n = self.conversations.len();
        let mut total_duration: u64 = 0;
        let mut total_messages: u64 = 0;
        let mut dist: Vec<(usize, usize)> = Vec::new();
        for i in 0..n
            invariant
                n == self.conversations.entries().len(),
                n == self.entries().len(),
                self.wf(),
                message_total(self.entries()) <= u64::MAX,
                total_duration == duration_total(self.entries().take(i as int)),
                total_messages == message_total(self.entries().take(i as int)),
                forall|a: int|
                    0 <= a < dist@.len() ==> #[trigger] dist@[a].1 == with_participant_count(
                        self.entries().take(i as int),
                        dist@[a].0 as int,
                    ),
                forall|a: int, b: int|
                    0 <= a < dist@.len() && 0 <= b < dist@.len() && a != b ==> dist@[a].0
                        != dist@[b].0,
                forall|a: int| 0 <= a < dist@.len() ==> #[trigger] dist@[a].1 > 0,
                covers(dist@, self.entries().take(i as int)),
        {
            let (_, c) = self.conversations.entry_at(i);
            let ghost pre = self.entries().take(i as int);
            let ghost post = self.entries().take(i + 1);
            proof {
                assert(post.drop_last() =~= pre);
                assert(post.last() == c@);
                lemma_message_total_prefix(self.entries(), i as int + 1);
            }
            let d = calculate_conversation_duration_ms(c.created_at.millis, c.last_activity.millis);
            total_duration = total_duration.saturating_add(d);
            total_messages = total_messages + c.message_count.count as u64;
            let p = c.participants.len();
            let mut j: usize = 0;
            while j < dist.len() && dist[j].0 != p
                invariant
                    j <= dist@.len(),
                    forall|b: int| 0 <= b < j ==> dist@[b].0 != p,
                decreases dist@.len() - j,
            {
                j = j + 1;
            }
            let found = j < dist.len();
            let ghost old_dist = dist@;
            assert(covers(old_dist, pre));
            if found {
                assert(dist@[j as int].0 == p);
                assert(dist@[j as int].1 <= pre.len()) by {
                    lemma_count_bound(pre, p as int);
                }
                let cnt = dist[j].1;
                dist.set(j, (p, cnt + 1));
            } else {
                dist.push((p, 1));
            }
            proof {
                assert(c@.participants.len() == p);
                assert forall|q: int|
                    #[trigger] with_participant_count(post, q) == with_participant_count(pre, q) + if p
                        == q {
                        1nat
                    } else {
                        0nat
                    } by {
                    assert(post.last().participants.len() == p);
                }
                if found {
                    assert(dist@ == old_dist.update(j as int, (p, (old_dist[j as int].1 + 1) as usize)));
                } else {
                    assert(dist@ == old_dist.push((p, 1usize)));
                    assert(with_participant_count(pre, p as int) == 0) by {
                        if with_participant_count(pre, p as int) > 0 {
                            assert(lists_count(old_dist, p as int));
                            let b = choose|b: int| 0 <= b < old_dist.len() && old_dist[b].0 == p;
                            assert(old_dist[b].0 != p);
                        }
                    }
                }
                assert forall|a: int|
                    0 <= a < dist@.len() implies #[trigger] dist@[a].1 == with_participant_count(
                        post,
                        dist@[a].0 as int,
                    ) by {
                    let q = dist@[a].0 as int;
                    assert(with_participant_count(post, q) == with_participant_count(pre, q) + if p
                        == q {
                        1nat
                    } else {
                        0nat
                    });
                    if a < old_dist.len() {
                        assert(old_dist[a].1 == with_participant_count(pre, old_dist[a].0 as int));
                        if found && a == j {
                            assert(q == p);
                        } else {
                            assert(dist@[a] == old_dist[a]);
                            assert(old_dist[a].0 != p);
                        }
                    } else {
                        assert(q == p);
                    }
                }
                assert forall|a: int| 0 <= a < dist@.len() implies #[trigger] dist@[a].1 > 0 by {
                    if a < old_dist.len() && !(found && a == j) {
                        assert(dist@[a] == old_dist[a]);
                    }
                }
                assert forall|q: int|
                    #[trigger] with_participant_count(post, q) > 0 implies lists_count(dist@, q) by {
                    assert(covers(old_dist, pre));
                    if q == p {
                        if found {
                            assert(dist@[j as int].0 == q);
                        } else {
                            assert(dist@[old_dist.len() as int].0 == q);
                        }
                    } else {
                        assert(with_participant_count(post, q) == with_participant_count(pre, q)
                            + if p == q {
                            1nat
                        } else {
                            0nat
                        });
                        assert(with_participant_count(pre, q) > 0);
                        assert(lists_count(old_dist, q));
                        let b = choose|b: int| 0 <= b < old_dist.len() && old_dist[b].0 == q;
                        assert(dist@[b].0 == q);
                    }
                }
            }
        }
        assert(self.entries().take(n as int) =~= self.entries());
        let total_created = if self.total_created > 1_000_000 {
            1_000_000
        } else {
            self.total_created as usize
        };
        ConversationStats {
            total_active: n,
            total_created: MessageCount::new(total_created),
            average_duration_ms: calculate_average_duration(total_duration, n),
            total_message_count: total_messages,
            participants_distribution: dist,
        }
    }
}

/// The message total of a prefix is at most that of the whole sequence.
proof fn lemma_message_total_prefix(s: Seq<ConversationView>, i: int)
    requires
        0 <= i <= s.len(),
    ensures
        message_total(s.take(i)) <= message_total(s),
    decreases s.len() - i,
{
    if i < s.len() {
        lemma_message_total_prefix(s, i + 1);
        assert(s.take(i + 1).drop_last() =~= s.take(i));
    }
    else {
        assert(s.take(i) =~= s);
    }
}

/// A count of conversations is at most the number of conversations.
proof fn lemma_count_bound(s: Seq<ConversationView>, p: int)
    ensures
        with_participant_count(s, p) <= s.len(),
    decreases s.len(),
{
    if s.len() > 0 {
        lemma_count_bound(s.drop_last(), p);
    }
}

} // verus!
