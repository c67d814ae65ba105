use vstd::prelude::*;

verus! {

/// The text appended to a transcript for one turn: the user's message and the
/// reply, each on a line of its own.
pub open spec fn with_turn(history: Seq<char>, user_msg: Seq<char>, ai_msg: Seq<char>) -> Seq<char> {
    history + "\nUser: "@ + user_msg + "\nAI: "@ + ai_msg
}

/// The transcript made by appending `turns`, in order, to an empty one.
pub open spec fn transcript_of(turns: Seq<(Seq<char>, Seq<char>)>) -> Seq<char>
    decreases turns.len(),
{
    if turns.len() == 0 {
        Seq::empty()
    } else {
        with_turn(transcript_of(turns.drop_last()), turns.last().0, turns.last().1)
    }
}

/// A session that `create_session` has just registered under `id` is found by
/// that id, with an empty transcript.
pub proof fn lemma_created_session_is_empty(
    before: Map<Seq<char>, Seq<char>>,
    after: Map<Seq<char>, Seq<char>>,
    id: Seq<char>,
)
    requires
        !before.contains_key(id),
        after == before.insert(id, Seq::<char>::empty()),
    ensures
        after.contains_key(id),
        after[id] == Seq::<char>::empty(),
        forall|k: Seq<char>| k != id ==> (after.contains_key(k) == before.contains_key(k)),
{
}

/// Appending `turns` one by one to a session that starts empty, as
/// `append_to_session` does (`states[k]` is the store before the k-th turn),
/// leaves exactly those turns, in that order, in its transcript; the other
/// sessions are untouched.
pub proof fn lemma_appended_turns(
    states: Seq<Map<Seq<char>, Seq<char>>>,
    turns: Seq<(Seq<char>, Seq<char>)>,
    id: Seq<char>,
)
    requires
        states.len() == turns.len() + 1,
        states[0].contains_key(id),
        states[0][id] == Seq::<char>::empty(),
        forall|k: int|
            0 <= k < turns.len() ==> #[trigger] states[k + 1] == states[k].insert(
                id,
                with_turn(states[k][id], turns[k].0, turns[k].1),
            ),
    ensures
        states.last().contains_key(id),
        states.last()[id] == transcript_of(turns),
        forall|k: Seq<char>| k != id ==> states.last().contains_key(k) == states[0].contains_key(k),
        forall|k: Seq<char>|
            k != id && states[0].contains_key(k) ==> states.last()[k] == states[0][k],
    decreases turns.len(),
{
    if turns.len() > 0 {
        let n = turns.len() - 1;
        let prefix_states = states.subrange(0, n + 1);
        let prefix = turns.drop_last();
        assert forall|k: int| 0 <= k < prefix.len() implies #[trigger] prefix_states[k + 1]
            == prefix_states[k].insert(id, with_turn(prefix_states[k][id], prefix[k].0, prefix[k].1)) by {
            assert(states[k + 1] == states[k].insert(id, with_turn(states[k][id], turns[k].0, turns[k].1)));
        }
        lemma_appended_turns(prefix_states, prefix, id);
        assert(states[n + 1] == states[n].insert(id, with_turn(states[n][id], turns[n].0, turns[n].1)));
    }
}

/// In-memory registry of conversation transcripts, keyed by session id.
///
/// Its model is a map from session id to transcript; each id occurs at most
/// once among the stored entries.
pub struct SessionStore {
    sessions: Vec<(String, String)>,
}

impl SessionStore {
    pub closed spec fn key_at(&self, i: int) -> Seq<char> {
        self.sessions@[i].0@
    }

    pub closed spec fn has_key(&self, k: Seq<char>) -> bool {
        exists|i: int| 0 <= i < self.sessions@.len() && #[trigger] self.key_at(i) == k
    }

    pub closed spec fn index_of(&self, k: Seq<char>) -> int {
        choose|i: int| 0 <= i < self.sessions@.len() && #[trigger] self.key_at(i) == k
    }

    /// No two entries share an id.
    pub closed spec fn wf(&self) -> bool {
        forall|i: int, j: int|
            0 <= i < self.sessions@.len() && 0 <= j < self.sessions@.len() && i != j
                ==> #[trigger] self.key_at(i) != #[trigger] self.key_at(j)
    }

    proof fn lemma_index_of(&self, i: int)
        requires
            self.wf(),
            0 <= i < self.sessions@.len(),
        ensures
            self.has_key(self.key_at(i)),
            self.index_of(self.key_at(i)) == i,
    {
        assert(self.key_at(i) == self.key_at(i));
    }

    /// Creates a store with no sessions.
    pub fn new() -> (r: Self)
        ensures
            r.wf(),
            r@ == Map::<Seq<char>, Seq<char>>::empty(),
    {
        let r = SessionStore { sessions: Vec::new() };
        assert(r@ =~= Map::<Seq<char>, Seq<char>>::empty());
        r
    }

    /// Position of the entry with the given id, if any.
    fn find(&self, id: &str) -> (r: Option<usize>)
        requires
            self.wf(),
        ensures
            match r {
                Some(i) => i < self.sessions@.len() && self.key_at(i as int) == id@
                    && self.index_of(id@) == i as int,
                None => !self@.contains_key(id@),
            },
    {
        let key = String::from_str(id);
        let n = self.sessions.len();
        let mut i: usize = 0;
        while i < n
            invariant
                self.wf(),
                n == self.sessions@.len(),
                i <= n,
                key@ == id@,
                forall|j: int| 0 <= j < i ==> self.key_at(j) != id@,
            decreases n - i,
        {
            if self.sessions[i].0 == key {
                proof {
                    self.lemma_index_of(i as int);
                }
                return Some(i);
            }
            i = i + 1;
        }
        None
    }

    /// Registers an empty transcript under `candidate`, or, where that id is
    /// empty or already taken, under `candidate` followed by as many `-` as
    /// make it non-empty and new. Returns the id used.
    pub fn register_fresh_session(&mut self, candidate: String) -> (r: String)
        requires
            old(self).wf(),
        ensures
            final(self).wf(),
            !old(self)@.contains_key(r@),
            final(self)@ == old(self)@.insert(r@, Seq::<char>::empty()),
            candidate@.is_prefix_of(r@),
            forall|j: int| candidate@.len() <= j < r@.len() ==> r@[j] == '-',
            r@.len() > 0,
            candidate@.len() > 0 && !old(self)@.contains_key(candidate@) ==> r@ == candidate@,
    {
        let n = self.sessions.len();
        let mut longest: usize = 0;
        let mut i: usize = 0;
        while i < n
            invariant
                n == self.sessions@.len(),
                i <= n,
                forall|j: int| 0 <= j < i ==> (#[trigger] self.key_at(j)).len() <= longest,
            decreases n - i,
        {
            let len = self.sessions[i].0.as_str().unicode_len();
            if len > longest {
                longest = len;
            }
            i = i + 1;
        }
        let mut id = candidate;
        if id.as_str().unicode_len() == 0 {
            id.append("-");
            proof {
                reveal_strlit("-");
                assert("-"@[0] == '-');
            }
        }
        while self.contains(id.as_str())
            invariant
                self.wf(),
                n == self.sessions@.len(),
                forall|j: int| 0 <= j < n ==> (#[trigger] self.key_at(j)).len() <= longest,
                candidate@.is_prefix_of(id@),
                forall|j: int| candidate@.len() <= j < id@.len() ==> id@[j] == '-',
                id@.len() > 0,
                candidate@.len() > 0 && !self@.contains_key(candidate@) ==> id@ == candidate@,
            decreases longest + 1 - id@.len(),
        {
            proof {
                assert(self.has_key(id@));
                let j = self.index_of(id@);
                assert(self.key_at(j).len() <= longest);
                reveal_strlit("-");
                assert("-"@[0] == '-');
            }
            let ghost prev = id@;
            id.append("-");
            assert(id@.subrange(0, candidate@.len() as int) =~= prev.subrange(0, candidate@.len() as int));
        }
        let ghost before = *self;
        let key = id.clone();
        self.sessions.push((key, String::new()));
        proof {
            assert forall|j: int| 0 <= j < before.sessions@.len() implies
                #[trigger] self.key_at(j) == before.key_at(j) by {}
            assert(self.key_at(n as int) == id@);
            assert forall|j: int| 0 <= j < before.sessions@.len() implies
                #[trigger] before.key_at(j) != id@ by {
                if before.key_at(j) == id@ {
                    assert(before.has_key(id@));
                }
            }
            assert forall|k: Seq<char>| self.has_key(k) == (before.has_key(k) || k == id@) by {
                if before.has_key(k) {
                    let j = before.index_of(k);
                    assert(self.key_at(j) == k);
                }
                if self.has_key(k) && k != id@ {
                    let j = self.index_of(k);
                    assert(before.key_at(j) == k);
                }
            }
            self.lemma_index_of(n as int);
            assert forall|k: Seq<char>| #[trigger] self.has_key(k) && k != id@ implies
                self.sessions@[self.index_of(k)].1@ == before.sessions@[before.index_of(k)].1@ by {
                let j = before.index_of(k);
                self.lemma_index_of(j);
            }
            assert(self@ =~= before@.insert(id@, Seq::<char>::empty()));
        }
        id
    }

    /// Starts a session with an empty transcript under a new random id, and
    /// returns that id.
    pub fn create_session(&mut self) -> (r: String)
        requires
            old(self).wf(),
        ensures
            final(self).wf(),
            !old(self)@.contains_key(r@),
            r@.len() > 0,
            final(self)@ == old(self)@.insert(r@, Seq::<char>::empty()),
    {
        let candidate = random_session_id();
        self.register_fresh_session(candidate)
    }

    /// The transcript stored under `id`, if that id is registered.
    pub fn get_session(&self, id: &str) -> (r: Option<&String>)
        requires
            self.wf(),
        ensures
            match r {
                Some(t) => self@.contains_key(id@) && t@ == self@[id@],
                None => !self@.contains_key(id@),
            },
    {
        match self.find(id) {
            Some(i) => Some(&self.sessions[i].1),
            None => None,
        }
    }

    /// Whether `id` is registered.
    pub fn contains(&self, id: &str) -> (r: bool)
        requires
            self.wf(),
        ensures
            r == self@.contains_key(id@),
    {
        self.find(id).is_some()
    }

    /// Appends one turn to the transcript of `id`; an unknown id leaves the
    /// store as it is.
    pub fn append_to_session(&mut self, id: &str, user_msg: &str, ai_msg: &str)
        requires
            old(self).wf(),
        ensures
            final(self).wf(),
            old(self)@.contains_key(id@) ==> final(self)@ == old(self)@.insert(
                id@,
                with_turn(old(self)@[id@], user_msg@, ai_msg@),
            ),
            !old(self)@.contains_key(id@) ==> final(self)@ == old(self)@,
    {
        match self.find(id) {
            Some(i) => {
                let ghost before = *self;
                let mut history = self.sessions[i].1.clone();
                history.append("\nUser: ");
                history.append(user_msg);
                history.append("\nAI: ");
                history.append(ai_msg);
                let key = self.sessions[i].0.clone();
                self.sessions.set(i, (key, history));
                proof {
                    assert forall|j: int| 0 <= j < self.sessions@.len() implies
                        #[trigger] self.key_at(j) == before.key_at(j) by {}
                    assert forall|k: Seq<char>| self.has_key(k) == before.has_key(k) by {
                        if before.has_key(k) {
                            let j = before.index_of(k);
                            assert(self.key_at(j) == k);
                        }
                        if self.has_key(k) {
                            let j = self.index_of(k);
                            assert(before.key_at(j) == k);
                        }
                    }
                    assert forall|k: Seq<char>| #[trigger] self.has_key(k) && k != id@ implies
                        self.sessions@[self.index_of(k)].1@ == before.sessions@[before.index_of(k)].1@ by {
                        let j = self.index_of(k);
                        before.lemma_index_of(j);
                    }
                    self.lemma_index_of(i as int);
                    assert(self@ =~= before@.insert(id@, with_turn(before@[id@], user_msg@, ai_msg@)));
                }
            },
            None => {},
        }
    }
}

/// Relies on uuid::Uuid::new_v4 and the hyphenated text form of a Uuid: a
/// random 128-bit id. Nothing is promised of the value; uuid panics only when
/// the system's random source fails.
#[verifier::external_body]
fn random_session_id() -> (r: String) {
    uuid::Uuid::new_v4().to_string()
}

impl View for SessionStore {
    type V = Map<Seq<char>, Seq<char>>;

    closed spec fn view(&self) -> Map<Seq<char>, Seq<char>> {
        Map::new(|k: Seq<char>| self.has_key(k), |k: Seq<char>| self.sessions@[self.index_of(k)].1@)
    }
}

} // verus!
