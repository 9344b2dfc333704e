//! The sound pool: a fixed set of stream players, handed out first come,
//! first served to the sounds that wait to be played.
//!
//! Players are known by their number: the pool hands out the number of a free
//! player, and the embedding returns it when that player's stream has
//! finished. Sounds wait in the order in which they were requested.

use crate::sound_path::count_sounds;
use crate::sound_path::select_sound;
use crate::sound_path::sound_resource;
use crate::sound_path::variant_count;
use rand::Rng;
use std::collections::VecDeque;
use vstd::prelude::*;

verus! {

/// Number of stream players in a new pool.
pub const NUM_PLAYERS: i32 = 12;

/// The sound pool.
pub struct AudioBase {
    /// Number of stream players that `ready` brings into the pool.
    pub num_players: i32,
    /// The audio bus that the players feed.
    pub bus: &'static str,
    /// The players that are free, the longest free first.
    pub available: VecDeque<usize>,
    /// The sound files that wait for a player, the oldest first.
    pub queue: VecDeque<String>,
}

/// A sound file on its way to a player.
pub struct Playback {
    /// Number of the player that plays the sound.
    pub player: usize,
    /// The sound file.
    pub sound: String,
}

/// The pool as a pair of sequences.
pub struct AudioView {
    /// Number of stream players that `ready` brings into the pool.
    pub num_players: int,
    /// The numbers of the free players, the longest free first.
    pub available: Seq<usize>,
    /// The sound files that wait, the oldest first.
    pub queue: Seq<Seq<char>>,
}

impl AudioView {
    /// A sound waits and a player is free.
    pub open spec fn can_play(self) -> bool {
        self.queue.len() > 0 && self.available.len() > 0
    }

    /// The pool with one more sound waiting.
    pub open spec fn enqueued(self, sound: Seq<char>) -> AudioView {
        AudioView { queue: self.queue.push(sound), ..self }
    }

    /// The pool with one more player free.
    pub open spec fn released(self, player: usize) -> AudioView {
        AudioView { available: self.available.push(player), ..self }
    }

    /// The pool after its oldest sound has gone to its longest free player.
    pub open spec fn after_playback(self) -> AudioView
        recommends
            self.can_play(),
    {
        AudioView {
            available: self.available.drop_first(),
            queue: self.queue.drop_first(),
            ..self
        }
    }
}

/// The numbers of the players that `ready` creates for a pool of
/// `num_players`: from zero up, none for a negative size.
pub open spec fn player_numbers(num_players: int) -> Seq<usize> {
    Seq::new(
        if num_players > 0 {
            num_players as nat
        } else {
            0
        },
        |i: int| i as usize,
    )
}

impl View for AudioBase {
    type V = AudioView;

    open spec fn view(&self) -> AudioView {
        AudioView {
            num_players: self.num_players as int,
            available: self.available@,
            queue: Seq::new(self.queue@.len(), |i: int| self.queue@[i]@),
        }
    }
}

/// Draws a position below `bound` at random.
///
/// Trusted: the body calls `rand::thread_rng` and, on the generator that it
/// returns, `rand::Rng::gen_range` with the range `0..bound`. `gen_range`
/// returns a value of the range that it is given and panics on an empty
/// range, which the precondition rules out. Nothing is claimed about which
/// value is drawn: two calls with one bound may differ.
#[verifier::external_body]
fn random_index(bound: usize) -> (index: usize)
    requires
        bound > 0,
    ensures
        index < bound,
{
    rand::thread_rng().gen_range(0..bound)
}

impl AudioBase {
    /// An empty pool for `NUM_PLAYERS` players on the master bus. The
    /// players come with `ready`.
    pub fn new() -> (audio: AudioBase)
        ensures
            audio@ == (AudioView {
                num_players: NUM_PLAYERS as int,
                available: Seq::empty(),
                queue: Seq::empty(),
            }),
            audio.bus@ == "master"@,
    {
        let audio = AudioBase {
            num_players: NUM_PLAYERS,
            bus: "master",
            available: VecDeque::new(),
            queue: VecDeque::new(),
        };
        assert(audio@.queue =~= Seq::empty());
        audio
    }

    /// Brings the players into the pool: numbers zero to `num_players - 1`
    /// become free, in this order, behind the players that are free already.
    /// The embedding creates one stream player for each number.
    pub fn ready(&mut self)
        ensures
            final(self)@ == (AudioView {
                available: old(self)@.available + player_numbers(old(self)@.num_players),
                ..old(self)@
            }),
            final(self).bus == old(self).bus,
    {
        let mut made: i32 = 0;
        assert(self.available@ + player_numbers(0) =~= self.available@);
        while made < self.num_players
            invariant
                0 <= made,
                made <= self.num_players || made == 0,
                self.num_players == old(self).num_players,
                self.bus == old(self).bus,
                self.queue == old(self).queue,
                self.available@ == old(self).available@ + player_numbers(made as int),
            decreases self.num_players - made,
        {
            self.available.push_back(made as usize);
            made += 1;
            assert(player_numbers(made as int) =~= player_numbers(made - 1).push(
                (made - 1) as usize,
            ));
        }
        assert(player_numbers(made as int) =~= player_numbers(self.num_players as int));
    }

    /// Starts the next sound if one waits and a player is free: the oldest
    /// sound goes to the player that has been free the longest, and both
    /// leave the pool. Otherwise nothing changes.
    pub fn process(&mut self) -> (playback: Option<Playback>)
        ensures
            match playback {
                Some(started) => {
                    &&& old(self)@.can_play()
                    &&& started.player == old(self)@.available[0]
                    &&& started.sound@ == old(self)@.queue[0]
                    &&& final(self)@ == old(self)@.after_playback()
                },
                None => !old(self)@.can_play() && final(self)@ == old(self)@,
            },
            final(self).bus == old(self).bus,
    {
        if self.queue.len() > 0 && self.available.len() > 0 {
            let sound = self.queue.pop_front().unwrap();
            let player = self.available.pop_front().unwrap();
            assert(self@.queue =~= old(self)@.queue.drop_first());
            assert(self@.available =~= old(self)@.available.drop_first());
            Some(Playback { player, sound })
        } else {
            None
        }
    }

    /// Requests a sound: one of the variants that `sound_path` names, drawn
    /// at random, joins the sounds that wait.
    pub fn play(&mut self, sound_path: &str)
        ensures
            exists|variant: int|
                0 <= variant < variant_count(sound_path@) && final(self)@ == old(self)@.enqueued(
                    #[trigger] sound_resource(sound_path@, variant),
                ),
            final(self).bus == old(self).bus,
    {
        let count = count_sounds(sound_path);
        let variant = random_index(count);
        self.play_variant(sound_path, variant);
    }

    /// Requests variant number `variant` of a sound: its sound file joins the
    /// sounds that wait.
    pub fn play_variant(&mut self, sound_path: &str, variant: usize)
        requires
            variant < variant_count(sound_path@),
        ensures
            final(self)@ == old(self)@.enqueued(sound_resource(sound_path@, variant as int)),
            final(self).bus == old(self).bus,
    {
        let sound = select_sound(sound_path, variant);
        self.queue.push_back(sound);
        assert(self@.queue =~= old(self)@.queue.push(sound@));
    }

    /// Takes back a player whose stream has finished: it becomes free, behind
    /// the players that are free already.
    pub fn on_stream_finished(&mut self, player: usize)
        ensures
            final(self)@ == old(self)@.released(player),
            final(self).bus == old(self).bus,
    {
        self.available.push_back(player);
    }
}

/// No player is lost or doubled when a sound is played: once the player
/// that `process` hands out has finished, the same players are free as
/// before, each of them once, and the player that played has gone to the
/// back.
pub proof fn lemma_player_comes_back(pool: AudioView)
    requires
        pool.can_play(),
        pool.available.no_duplicates(),
    ensures
        ({
            let after = pool.after_playback().released(pool.available[0]);
            &&& after.available == pool.available.drop_first().push(pool.available[0])
            &&& after.available.len() == pool.available.len()
            &&& after.available.no_duplicates()
            &&& forall|player: usize|
                after.available.contains(player) <==> pool.available.contains(player)
            &&& after.queue == pool.queue.drop_first()
        }),
{
    let before = pool.available;
    let after = pool.after_playback().released(before[0]).available;
    assert forall|player: usize| after.contains(player) <==> before.contains(player) by {
        if before.contains(player) {
            let i = choose|i: int| 0 <= i < before.len() && before[i] == player;
            if i == 0 {
                assert(after[after.len() - 1] == player);
            } else {
                assert(after[i - 1] == player);
            }
        }
        if after.contains(player) {
            let j = choose|j: int| 0 <= j < after.len() && after[j] == player;
            if j == after.len() - 1 {
                assert(before[0] == player);
            } else {
                assert(before[j + 1] == player);
            }
        }
    }
}

} // verus!
