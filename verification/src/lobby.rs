//! Player rosters shared by the minigames: a set of player names that keeps
//! the order in which players joined.

use vstd::prelude::*;

verus! {

/// The names of a list of strings, as character sequences.
pub open spec fn names_of(v: Seq<String>) -> Seq<Seq<char>> {
    v.map_values(|s: String| s@)
}

/// A set of player names; no name occurs twice, and names stay in the order
/// in which they were added.
///
/// The names are held in a vector rather than a `HashSet`: vstd's contracts
/// for `HashSet` hold only for key types that it knows to hash consistently
/// with equality (`obeys_key_model`), which it establishes for integers and
/// `bool` but not for `String`.
#[derive(Debug)]
pub struct PlayerSet {
    names: Vec<String>,
}

impl View for PlayerSet {
    type V = Seq<Seq<char>>;

    closed spec fn view(&self) -> Seq<Seq<char>> {
        names_of(self.names@)
    }
}

impl PlayerSet {
    /// No name occurs twice.
    #[verifier::type_invariant]
    pub open spec fn unique(&self) -> bool {
        self@.no_duplicates()
    }

    /// An empty set.
    pub fn new() -> (s: Self)
        ensures
            s@ == Seq::<Seq<char>>::empty(),
    {
        PlayerSet { names: Vec::new() }
    }

    /// Index of `name`, if present.
    fn position(&self, name: &String) -> (r: Option<usize>)
        ensures
            match r {
                Some(i) => {
                    &&& i < self@.len()
                    &&& self@[i as int] == name@
                    &&& forall|j: int| 0 <= j < i ==> self@[j] != name@
                },
                None => !self@.contains(name@),
            },
    {
        let mut i: usize = 0;
        while i < self.names.len()
            invariant
                i <= self.names@.len(),
                forall|j: int| 0 <= j < i ==> self@[j] != name@,
            decreases self.names@.len() - i,
        {
            if self.names[i] == *name {
                return Some(i);
            }
            i += 1;
        }
        None
    }

    /// Adds `name`; returns whether it was absent.
    pub fn insert(&mut self, name: String) -> (added: bool)
        ensures
            added == !old(self)@.contains(name@),
            final(self)@ == (if added { old(self)@.push(name@) } else { old(self)@ }),
    {
        proof { use_type_invariant(&*self); }
        match self.position(&name) {
            Some(_) => false,
            None => {
                let mut names: Vec<String> = Vec::new();
                std::mem::swap(&mut self.names, &mut names);
                proof {
                    assert(names_of(names@.push(name)) =~= names_of(names@).push(name@));
                }
                names.push(name);
                self.names = names;
                true
            },
        }
    }
}


impl PlayerSet {
    /// Number of players.
    pub fn len(&self) -> (n: usize)
        ensures
            n == self@.len(),
    {
        self.names.len()
    }

    /// Whether no player is in the set.
    pub fn is_empty(&self) -> (b: bool)
        ensures
            b == (self@.len() == 0),
    {
        self.names.len() == 0
    }

    /// Whether `name` is in the set.
    pub fn contains(&self, name: &String) -> (b: bool)
        ensures
            b == self@.contains(name@),
    {
        self.position(name).is_some()
    }

    /// Removes `name`; returns whether it was present.
    pub fn remove(&mut self, name: &String) -> (removed: bool)
        ensures
            removed == old(self)@.contains(name@),
            final(self)@ == old(self)@.remove_value(name@),
    {
        proof {
            use_type_invariant(&*self);
            self@.index_of_first_ensures(name@);
        }
        match self.position(name) {
            None => false,
            Some(i) => {
                let mut names: Vec<String> = Vec::new();
                std::mem::swap(&mut self.names, &mut names);
                let ghost before = names@;
                names.remove(i);
                proof {
                    assert(names_of(before.remove(i as int)) =~= names_of(before).remove(i as int));
                    assert(names_of(before).remove_value(name@) == names_of(before).remove(i as int));
                    assert(names_of(names@).no_duplicates()) by {
                        assert forall|a: int, b: int|
                            0 <= a < b < names_of(names@).len() implies
                            names_of(names@)[a] != names_of(names@)[b] by {
                            let s = names_of(before);
                            let ia = if a < i { a } else { a + 1 };
                            let ib = if b < i { b } else { b + 1 };
                            assert(names_of(names@)[a] == s[ia]);
                            assert(names_of(names@)[b] == s[ib]);
                        }
                    }
                }
                self.names = names;
                true
            },
        }
    }

    /// Removes every player.
    pub fn clear(&mut self)
        ensures
            final(self)@ == Seq::<Seq<char>>::empty(),
    {
        self.names = Vec::new();
        proof {
            assert(names_of(self.names@) =~= Seq::<Seq<char>>::empty());
        }
    }

    /// The players' names, in the set's order.
    pub fn names(&self) -> (v: Vec<String>)
        ensures
            names_of(v@) == self@,
    {
        let mut v: Vec<String> = Vec::new();
        let mut i: usize = 0;
        while i < self.names.len()
            invariant
                i <= self.names@.len(),
                names_of(v@) == self@.subrange(0, i as int),
            decreases self.names@.len() - i,
        {
            let c = self.names[i].clone();
            let ghost prev = v@;
            v.push(c);
            proof {
                assert(c@ == self@[i as int]);
                assert(v@ == prev.push(c));
                assert(names_of(v@) =~= names_of(prev).push(c@));
                assert(self@.subrange(0, i + 1) =~= self@.subrange(0, i as int).push(self@[i as int]));
            }
            i += 1;
        }
        proof {
            assert(self@.subrange(0, i as int) =~= self@);
        }
        v
    }

    /// A second set with the same players in the same order.
    pub fn duplicate(&self) -> (s: Self)
        ensures
            s@ == self@,
    {
        proof { use_type_invariant(self); }
        PlayerSet { names: self.names() }
    }

    /// The first player, if any.
    pub fn first(&self) -> (r: Option<String>)
        ensures
            match r {
                Some(n) => self@.len() > 0 && n@ == self@[0],
                None => self@.len() == 0,
            },
    {
        if self.names.len() == 0 {
            None
        } else {
            Some(self.names[0].clone())
        }
    }
}


/// Removing a name shortens a roster by one exactly when the name is in it.
pub proof fn lemma_remove_value_len(s: Seq<Seq<char>>, name: Seq<char>)
    ensures
        s.remove_value(name).len() == (if s.contains(name) { s.len() - 1 } else { s.len() as int }),
{
    s.index_of_first_ensures(name);
}

/// What a request to join the queue led to.
#[derive(Debug, PartialEq, Eq, Structural)]
pub enum JoinOutcome {
    /// A round is running; nobody may join now.
    GameInProgress,
    /// The player was added; `queued` players are now waiting.
    Joined { queued: usize },
    /// The player was already waiting.
    AlreadyQueued,
}

/// What a request to start a round led to.
#[derive(Debug)]
pub enum StartOutcome {
    /// A round was already running; nothing changed.
    AlreadyRunning,
    /// A round began with these players, in roster order.
    Started(Vec<String>),
}

/// What became of a round after a player was eliminated.
#[derive(Debug)]
pub enum RoundResult {
    /// Two or more players remain.
    Continues,
    /// One player remains and wins.
    Winner(String),
    /// Nobody remains.
    NoPlayersLeft,
}

/// What a player's movement led to.
#[derive(Debug)]
pub enum MoveOutcome {
    /// Nothing changed.
    Unaffected,
    /// The player was eliminated; the round then stands as given.
    Eliminated(RoundResult),
}

/// What the status command reports.
#[derive(Debug)]
pub enum StatusReport {
    /// Waiting for a round, with this many players queued.
    Waiting { queued: usize },
    /// A round is running with these players still in it.
    Active { alive: Vec<String> },
    /// The last round is over.
    Ended,
}

/// The queue after `name` asks to join it.
pub open spec fn enqueued(queued: Seq<Seq<char>>, name: Seq<char>) -> Seq<Seq<char>> {
    if queued.contains(name) {
        queued
    } else {
        queued.push(name)
    }
}

/// The answer to `name` asking to join the queue `queued` outside a round.
pub open spec fn join_answer(queued: Seq<Seq<char>>, name: Seq<char>) -> JoinOutcome {
    if queued.contains(name) {
        JoinOutcome::AlreadyQueued
    } else {
        JoinOutcome::Joined { queued: (queued.len() + 1) as usize }
    }
}

/// The queue after `name` leaves the game.
pub open spec fn queue_after_leave(queued: Seq<Seq<char>>, name: Seq<char>) -> Seq<Seq<char>> {
    queued.remove_value(name)
}

/// The players in the round after `name` leaves the game.
pub open spec fn alive_after_leave(alive: Seq<Seq<char>>, name: Seq<char>) -> Seq<Seq<char>> {
    alive.remove_value(name)
}

/// The roster a round starts with: the queue, or the starter alone when
/// nobody is queued.
pub open spec fn starting_roster(queued: Seq<Seq<char>>, starter: Seq<char>) -> Seq<Seq<char>> {
    if queued.len() == 0 {
        seq![starter]
    } else {
        queued
    }
}

/// `r` describes a round in which the players `remaining` are left.
pub open spec fn describes_round(r: RoundResult, remaining: Seq<Seq<char>>) -> bool {
    match r {
        RoundResult::Continues => remaining.len() >= 2,
        RoundResult::Winner(w) => remaining.len() == 1 && w@ == remaining[0],
        RoundResult::NoPlayersLeft => remaining.len() == 0,
    }
}

/// `v` holds the names `players`, in order.
pub open spec fn reports_players(v: Vec<String>, players: Seq<Seq<char>>) -> bool {
    names_of(v@) == players
}

/// Adds `name` to the queue of a game that is not running.
pub fn enqueue(queued: &mut PlayerSet, name: String) -> (r: JoinOutcome)
    ensures
        final(queued)@ == enqueued(old(queued)@, name@),
        r == join_answer(old(queued)@, name@),
{
    if queued.insert(name) {
        JoinOutcome::Joined { queued: queued.len() }
    } else {
        JoinOutcome::AlreadyQueued
    }
}

/// Takes `name` out of the game: out of the queue and out of the round.
/// Returns whether the player was in either.
pub fn withdraw(queued: &mut PlayerSet, alive: &mut PlayerSet, name: &String) -> (left: bool)
    ensures
        left == (old(queued)@.contains(name@) || old(alive)@.contains(name@)),
        final(queued)@ == queue_after_leave(old(queued)@, name@),
        final(alive)@ == alive_after_leave(old(alive)@, name@),
{
    let was_queued = queued.remove(name);
    let was_alive = alive.remove(name);
    was_queued || was_alive
}

/// Fills the round from the queue (the starter alone if nobody is queued)
/// and returns the players of the round.
pub fn muster(queued: &mut PlayerSet, alive: &mut PlayerSet, starter: String) -> (players: Vec<
    String,
>)
    ensures
        final(queued)@ == starting_roster(old(queued)@, starter@),
        final(alive)@ == final(queued)@,
        reports_players(players, final(alive)@),
{
    if queued.is_empty() {
        queued.insert(starter);
        proof {
            assert(queued@ =~= seq![starter@]);
        }
    }
    *alive = queued.duplicate();
    alive.names()
}

/// Removes `name` from the round and tells how the round stands.
pub fn eliminate(alive: &mut PlayerSet, name: &String) -> (r: RoundResult)
    ensures
        final(alive)@ == old(alive)@.remove_value(name@),
        describes_round(r, final(alive)@),
{
    alive.remove(name);
    let n = alive.len();
    if n == 1 {
        match alive.first() {
            Some(w) => RoundResult::Winner(w),
            None => RoundResult::NoPlayersLeft,
        }
    } else if n == 0 {
        RoundResult::NoPlayersLeft
    } else {
        RoundResult::Continues
    }
}

} // verus!

verus! {

/// Joining twice does nothing more than joining once: the second request is
/// answered that the player is already queued.
pub proof fn law_join_idempotent(queued: Seq<Seq<char>>, name: Seq<char>)
    ensures
        enqueued(enqueued(queued, name), name) == enqueued(queued, name),
        join_answer(enqueued(queued, name), name) == JoinOutcome::AlreadyQueued,
{
    if !queued.contains(name) {
        assert(queued.push(name)[queued.len() as int] == name);
    }
}

/// For a player in neither the queue nor the round, leaving right after
/// joining undoes the join: the queue and the round are as they were.
pub proof fn law_leave_undoes_join(
    queued: Seq<Seq<char>>,
    alive: Seq<Seq<char>>,
    name: Seq<char>,
)
    requires
        !queued.contains(name),
        !alive.contains(name),
    ensures
        queue_after_leave(enqueued(queued, name), name) == queued,
        alive_after_leave(alive, name) == alive,
{
    alive.index_of_first_ensures(name);
    let q = queued.push(name);
    assert(q[queued.len() as int] == name);
    q.index_of_first_ensures(name);
    let i = q.index_of_first(name)->0;
    assert(i == queued.len()) by {
        if i < queued.len() {
            assert(queued[i] == name);
        }
    }
    assert(q.remove(i) =~= queued);
}

/// Once a player leaves, the player is neither queued nor in the round.
pub proof fn law_leaver_out_of_game(
    queued: Seq<Seq<char>>,
    alive: Seq<Seq<char>>,
    name: Seq<char>,
)
    requires
        queued.no_duplicates(),
        alive.no_duplicates(),
    ensures
        !queue_after_leave(queued, name).contains(name),
        !alive_after_leave(alive, name).contains(name),
{
    lemma_removed_absent(queued, name);
    lemma_removed_absent(alive, name);
}

/// A round always starts with at least one player: the whole queue, or the
/// starter alone (and nobody else) when nobody was queued.
pub proof fn law_round_starts_nonempty(queued: Seq<Seq<char>>, starter: Seq<char>)
    ensures
        starting_roster(queued, starter).len() >= 1,
        queued.len() > 0 ==> starting_roster(queued, starter) == queued,
        queued.len() == 0 ==> starting_roster(queued, starter).len() == 1
            && starting_roster(queued, starter)[0] == starter,
{
}

/// In a roster without duplicates, removing a name leaves no copy of it, and
/// everything left was there before.
proof fn lemma_removed_absent(s: Seq<Seq<char>>, name: Seq<char>)
    requires
        s.no_duplicates(),
    ensures
        !s.remove_value(name).contains(name),
        forall|p: Seq<char>| s.remove_value(name).contains(p) ==> s.contains(p),
        s.remove_value(name).no_duplicates(),
{
    s.index_of_first_ensures(name);
    if s.contains(name) {
        let i = s.index_of_first(name)->0;
        let r = s.remove(i);
        assert forall|k: int| 0 <= k < r.len() implies r[k] != name && s.contains(r[k]) by {
            let j = if k < i { k } else { k + 1 };
            assert(r[k] == s[j]);
        }
        assert forall|a: int, b: int| 0 <= a < b < r.len() implies r[a] != r[b] by {
            let ja = if a < i { a } else { a + 1 };
            let jb = if b < i { b } else { b + 1 };
            assert(r[a] == s[ja]);
            assert(r[b] == s[jb]);
        }
    }
}

/// An eliminated player leaves the round and nobody else does; a declared
/// winner was in the round and is not the player just eliminated.
pub proof fn law_elimination_removes_one(
    alive: Seq<Seq<char>>,
    name: Seq<char>,
    round: RoundResult,
)
    requires
        alive.no_duplicates(),
        alive.contains(name),
        describes_round(round, alive.remove_value(name)),
    ensures
        !alive.remove_value(name).contains(name),
        alive.remove_value(name).len() == alive.len() - 1,
        forall|p: Seq<char>| #[trigger]
            alive.contains(p) && p != name ==> alive.remove_value(name).contains(p),
        round matches RoundResult::Winner(w) ==> w@ != name && alive.contains(w@),
{
    lemma_removed_absent(alive, name);
    lemma_remove_value_len(alive, name);
    alive.index_of_first_ensures(name);
    let i = alive.index_of_first(name)->0;
    let r = alive.remove(i);
    assert forall|p: Seq<char>| #[trigger] alive.contains(p) && p != name implies r.contains(p) by {
        let j = choose|j: int| 0 <= j < alive.len() && alive[j] == p;
        if j < i {
            assert(r[j] == p);
        } else {
            assert(j != i);
            assert(r[j - 1] == p);
        }
    }
    if round matches RoundResult::Winner(w) {
        assert(r.contains(r[0]));
    }
}


/// Leaving takes out the leaver and nobody else: the leaver's one entry is
/// cut out of the roster, and every other player is in the roster afterwards
/// exactly when it was before, in the same order.
pub proof fn law_leave_removes_only_leaver(roster: Seq<Seq<char>>, name: Seq<char>)
    ensures
        !roster.contains(name) ==> queue_after_leave(roster, name) == roster
            && alive_after_leave(roster, name) == roster,
        roster.contains(name) ==> exists|i: int|
            0 <= i < roster.len() && roster[i] == name && queue_after_leave(roster, name)
                == roster.subrange(0, i) + roster.subrange(i + 1, roster.len() as int)
                && alive_after_leave(roster, name) == roster.subrange(0, i) + roster.subrange(
                i + 1,
                roster.len() as int,
            ),
        forall|p: Seq<char>|
            p != name ==> (queue_after_leave(roster, name).contains(p) <==> roster.contains(p)),
        forall|p: Seq<char>|
            p != name ==> (alive_after_leave(roster, name).contains(p) <==> roster.contains(p)),
{
    roster.index_of_first_ensures(name);
    if roster.contains(name) {
        let i = roster.index_of_first(name)->0;
        let r = roster.remove(i);
        assert(r == roster.subrange(0, i) + roster.subrange(i + 1, roster.len() as int));
        assert forall|p: Seq<char>| p != name implies (r.contains(p) <==> roster.contains(p)) by {
            if r.contains(p) {
                let k = choose|k: int| 0 <= k < r.len() && r[k] == p;
                let j = if k < i { k } else { k + 1 };
                assert(roster[j] == p);
            }
            if roster.contains(p) {
                let j = choose|j: int| 0 <= j < roster.len() && roster[j] == p;
                if j < i {
                    assert(r[j] == p);
                } else {
                    assert(j != i);
                    assert(r[j - 1] == p);
                }
            }
        }
    }
}

/// Joining answers with the size of the queue after the join: a new player is
/// added at the end and the count includes it; a player already queued
/// changes nothing.
pub proof fn law_join_reports_queue_size(queued: Seq<Seq<char>>, name: Seq<char>)
    requires
        queued.len() < usize::MAX,
    ensures
        queued.contains(name) ==> enqueued(queued, name) == queued && join_answer(queued, name)
            == JoinOutcome::AlreadyQueued,
        !queued.contains(name) ==> enqueued(queued, name) == queued.push(name) && (join_answer(
            queued,
            name,
        ) matches JoinOutcome::Joined { queued: count } && count == enqueued(queued, name).len()
            && count == queued.len() + 1),
{
}

/// A report lists every player of the roster it reports, each once, in order:
/// it has as many names as the roster, and the name at each place is the
/// roster's player at that place.
pub proof fn law_report_lists_every_player(v: Vec<String>, players: Seq<Seq<char>>)
    ensures
        reports_players(v, players) <==> (v@.len() == players.len() && forall|i: int|
            0 <= i < players.len() ==> #[trigger] v@[i]@ == players[i]),
{
    if v@.len() == players.len() && forall|i: int|
        0 <= i < players.len() ==> #[trigger] v@[i]@ == players[i] {
        assert(names_of(v@) =~= players);
    }
    if reports_players(v, players) {
        assert forall|i: int| 0 <= i < players.len() implies #[trigger] v@[i]@ == players[i] by {
            assert(names_of(v@)[i] == v@[i]@);
        }
    }
}

/// How a round stands after an elimination: it is won exactly when one player
/// remains (and that player wins), over with nobody left exactly when none
/// remains, and continues exactly when two or more remain.
pub proof fn law_round_result(r: RoundResult, remaining: Seq<Seq<char>>)
    requires
        describes_round(r, remaining),
    ensures
        (r is Winner) <==> remaining.len() == 1,
        (r is NoPlayersLeft) <==> remaining.len() == 0,
        (r is Continues) <==> remaining.len() >= 2,
        r matches RoundResult::Winner(w) ==> remaining.contains(w@) && remaining.len() == 1,
{
    match r {
        RoundResult::Winner(w) => {
            assert(remaining[0] == w@);
        },
        _ => {},
    }
}

} // verus!
