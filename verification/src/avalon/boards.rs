//! The pictures of the Avalon board that the game shows: one for every way a game can stand,
//! made by putting a token for each quest's winner, and one for the rejected parties, on the
//! empty board of the game's size.

use vstd::prelude::*;

verus! {

/// A token put on the board.
#[derive(Debug, Clone, Copy, PartialEq, Eq, Structural)]
pub enum TokenKind {
    /// good won the quest
    Good,
    /// evil won the quest
    Evil,
    /// the marker of rejected parties
    Reject,
}

/// A token and where its top left corner goes, in pixels.
#[derive(Debug, Clone, Copy, PartialEq, Eq, Structural)]
pub struct Placement {
    pub kind: TokenKind,
    pub x: i32,
    pub y: i32,
}

/// Where the token of quest `quest` (1 to 5) goes on the board of a game of `players`
/// (5 to 10).
pub open spec fn quest_spot(players: nat, quest: nat) -> (i32, i32) {
    let row: Seq<(i32, i32)> = if players == 5 {
        seq![(45, 583), (408, 583), (776, 588), (1155, 585), (1546, 582)]
    } else if players == 6 {
        seq![(68, 540), (440, 540), (821, 534), (1205, 535), (1575, 530)]
    } else if players == 7 {
        seq![(61, 560), (447, 564), (825, 566), (1196, 564), (1564, 568)]
    } else if players == 8 {
        seq![(60, 574), (440, 572), (818, 572), (1208, 570), (1580, 567)]
    } else if players == 9 {
        seq![(72, 547), (453, 545), (818, 546), (1188, 542), (1558, 540)]
    } else {
        seq![(53, 575), (423, 576), (794, 570), (1159, 567), (1531, 564)]
    };
    row[quest - 1]
}

/// Where the marker goes after `rejects` (1 to 5) rejected parties on the board of a game of
/// `players` (5 to 10).
pub open spec fn reject_spot(players: nat, rejects: nat) -> (i32, i32) {
    let row: Seq<(i32, i32)> = if players == 5 {
        seq![(83, 1114), (345, 1119), (612, 1122), (887, 1129), (1164, 1135)]
    } else if players == 6 {
        seq![(97, 1091), (376, 1091), (658, 1091), (937, 1088), (1215, 1085)]
    } else if players == 7 {
        seq![(100, 1102), (380, 1106), (656, 1106), (932, 1104), (1208, 1106)]
    } else if players == 8 {
        seq![(95, 1126), (372, 1120), (654, 1124), (934, 1122), (1216, 1120)]
    } else if players == 9 {
        seq![(104, 1089), (383, 1086), (659, 1086), (931, 1083), (1204, 1083)]
    } else {
        seq![(100, 1104), (365, 1102), (638, 1096), (904, 1098), (1174, 1098)]
    };
    row[rejects - 1]
}

fn pick(row: &[(i32, i32); 5], i: usize) -> (p: (i32, i32))
    requires
        i < 5,
    ensures
        p == row@[i as int],
{
    row[i]
}

/// Where the token of quest `quest` goes.
pub fn quest_position(players: usize, quest: usize) -> (p: (i32, i32))
    requires
        5 <= players <= 10,
        1 <= quest <= 5,
    ensures
        p == quest_spot(players as nat, quest as nat),
{
    let row: [(i32, i32); 5] = if players == 5 {
        [(45, 583), (408, 583), (776, 588), (1155, 585), (1546, 582)]
    } else if players == 6 {
        [(68, 540), (440, 540), (821, 534), (1205, 535), (1575, 530)]
    } else if players == 7 {
        [(61, 560), (447, 564), (825, 566), (1196, 564), (1564, 568)]
    } else if players == 8 {
        [(60, 574), (440, 572), (818, 572), (1208, 570), (1580, 567)]
    } else if players == 9 {
        [(72, 547), (453, 545), (818, 546), (1188, 542), (1558, 540)]
    } else {
        [(53, 575), (423, 576), (794, 570), (1159, 567), (1531, 564)]
    };
    pick(&row, quest - 1)
}

/// Where the marker of `rejects` rejected parties goes.
pub fn reject_position(players: usize, rejects: usize) -> (p: (i32, i32))
    requires
        5 <= players <= 10,
        1 <= rejects <= 5,
    ensures
        p == reject_spot(players as nat, rejects as nat),
{
    let row: [(i32, i32); 5] = if players == 5 {
        [(83, 1114), (345, 1119), (612, 1122), (887, 1129), (1164, 1135)]
    } else if players == 6 {
        [(97, 1091), (376, 1091), (658, 1091), (937, 1088), (1215, 1085)]
    } else if players == 7 {
        [(100, 1102), (380, 1106), (656, 1106), (932, 1104), (1208, 1106)]
    } else if players == 8 {
        [(95, 1126), (372, 1120), (654, 1124), (934, 1122), (1216, 1120)]
    } else if players == 9 {
        [(104, 1089), (383, 1086), (659, 1086), (931, 1083), (1204, 1083)]
    } else {
        [(100, 1104), (365, 1102), (638, 1096), (904, 1098), (1174, 1098)]
    };
    pick(&row, rejects - 1)
}

/// The number of quests good won.
pub open spec fn good_wins(rounds: Seq<bool>) -> nat
    decreases rounds.len(),
{
    if rounds.len() == 0 {
        0
    } else {
        good_wins(rounds.drop_last()) + if rounds.last() { 1nat } else { 0nat }
    }
}

/// Neither side has won three quests yet, so the game goes on.
pub open spec fn still_open(rounds: Seq<bool>) -> bool {
    good_wins(rounds) < 3 && rounds.len() - good_wins(rounds) < 3
}

/// One picture of the board: the game's size, the winners of the quests so far, and the
/// parties rejected since the last quest.
#[derive(Debug, Clone)]
pub struct BoardImage {
    pub players: usize,
    pub rounds: Vec<bool>,
    pub rejects: usize,
}

/// What a picture shows.
pub open spec fn image_view(b: BoardImage) -> (nat, Seq<bool>, nat) {
    (b.players as nat, b.rounds@, b.rejects as nat)
}

/// The pictures from the one after the quests `rounds` on: that one, then while the game goes
/// on the ones with one to five rejected parties, then those after good wins the next quest,
/// then those after evil wins it.
pub open spec fn pictures_from(players: nat, rounds: Seq<bool>) -> Seq<(nat, Seq<bool>, nat)>
    decreases 6 - rounds.len(),
{
    if still_open(rounds) && rounds.len() < 6 {
        seq![(players, rounds, 0nat)]
            + Seq::new(5, |i: int| (players, rounds, (i + 1) as nat))
            + pictures_from(players, rounds.push(true))
            + pictures_from(players, rounds.push(false))
    } else {
        seq![(players, rounds, 0nat)]
    }
}

proof fn lemma_good_wins_bounds(rounds: Seq<bool>)
    ensures
        good_wins(rounds) <= rounds.len(),
    decreases rounds.len(),
{
    if rounds.len() > 0 {
        lemma_good_wins_bounds(rounds.drop_last());
    }
}

proof fn lemma_push_wins(rounds: Seq<bool>, b: bool)
    ensures
        good_wins(rounds.push(b)) == good_wins(rounds) + if b { 1nat } else { 0nat },
{
    assert(rounds.push(b).drop_last() =~= rounds);
}

fn count_good(rounds: &Vec<bool>) -> (n: usize)
    ensures
        n == good_wins(rounds@),
{
    let mut n: usize = 0;
    for i in 0..rounds.len()
        invariant
            n == good_wins(rounds@.take(i as int)),
            n <= i,
    {
        proof {
            lemma_push_wins(rounds@.take(i as int), rounds@[i as int]);
            assert(rounds@.take(i + 1) =~= rounds@.take(i as int).push(rounds@[i as int]));
        }
        if rounds[i] {
            n = n + 1;
        }
    }
    assert(rounds@.take(rounds.len() as int) =~= rounds@);
    n
}

fn with_round(rounds: &Vec<bool>, b: bool) -> (v: Vec<bool>)
    ensures
        v@ == rounds@.push(b),
{
    let mut v = rounds.clone();
    proof { assert(v@ =~= rounds@); }
    v.push(b);
    v
}

fn add_pictures(out: &mut Vec<BoardImage>, players: usize, rounds: Vec<bool>)
    requires
        rounds@.len() <= 5,
    ensures
        final(out)@.map_values(|b: BoardImage| image_view(b))
            == old(out)@.map_values(|b: BoardImage| image_view(b)) + pictures_from(players as nat, rounds@),
    decreases 6 - rounds@.len(),
{
    let ghost before = out@.map_values(|b: BoardImage| image_view(b));
    let ghost r = rounds@;
    let good = count_good(&rounds);
    proof { lemma_good_wins_bounds(r); }
    let open = good < 3 && rounds.len() - good < 3;
    let len = rounds.len();
    out.push(BoardImage { players, rounds: rounds.clone(), rejects: 0 });
    proof {
        assert(out@.map_values(|b: BoardImage| image_view(b)) =~= before + seq![(players as nat, r, 0nat)]);
    }
    if open {
        let ghost head = before + seq![(players as nat, r, 0nat)];
        for i in 1..6usize
            invariant
                rounds@ == r,
                out@.map_values(|b: BoardImage| image_view(b))
                    == head + Seq::new((i - 1) as nat, |k: int| (players as nat, r, (k + 1) as nat)),
        {
            let copy = rounds.clone();
            assert(copy@ =~= r);
            let ghost pre = out@;
            out.push(BoardImage { players, rounds: copy, rejects: i });
            proof {
                assert(out@ =~= pre.push(out@[out@.len() - 1]));
                assert(image_view(out@[out@.len() - 1]) == (players as nat, r, i as nat));
                assert(out@.map_values(|b: BoardImage| image_view(b))
                    =~= pre.map_values(|b: BoardImage| image_view(b)).push((players as nat, r, i as nat)));
                assert(Seq::new(i as nat, |k: int| (players as nat, r, (k + 1) as nat))
                    =~= Seq::new((i - 1) as nat, |k: int| (players as nat, r, (k + 1) as nat)).push((players as nat, r, i as nat)));
                assert(out@.map_values(|b: BoardImage| image_view(b))
                    =~= head + Seq::new(i as nat, |k: int| (players as nat, r, (k + 1) as nat)));
            }
        }
        let ghost mid = out@.map_values(|b: BoardImage| image_view(b));
        assert(mid =~= head + Seq::new(5, |k: int| (players as nat, r, (k + 1) as nat)));
        proof {
            lemma_push_wins(r, true);
            lemma_push_wins(r, false);
        }
        assert(len < 5);
        let good_next = with_round(&rounds, true);
        add_pictures(out, players, good_next);
        let evil_next = with_round(&rounds, false);
        add_pictures(out, players, evil_next);
        assert(pictures_from(players as nat, r) == seq![(players as nat, r, 0nat)]
            + Seq::new(5, |i: int| (players as nat, r, (i + 1) as nat))
            + pictures_from(players as nat, r.push(true))
            + pictures_from(players as nat, r.push(false)));
        assert(out@.map_values(|b: BoardImage| image_view(b)) =~= before + pictures_from(players as nat, r));
    }
}

/// Every picture of the board of a game of `players`, from the empty board on.
pub fn all_pictures(players: usize) -> (v: Vec<BoardImage>)
    ensures
        v@.map_values(|b: BoardImage| image_view(b)) == pictures_from(players as nat, Seq::empty()),
{
    let mut v: Vec<BoardImage> = Vec::new();
    let start: Vec<bool> = Vec::new();
    add_pictures(&mut v, players, start);
    assert(Seq::<BoardImage>::empty().map_values(|b: BoardImage| image_view(b)) =~= Seq::empty());
    assert(v@.map_values(|b: BoardImage| image_view(b)) =~= pictures_from(players as nat, Seq::<bool>::empty()));
    v
}

/// The tokens on a picture: the winner of each quest on its spot, then the marker of the
/// rejected parties, if any.
pub open spec fn placements(players: nat, rounds: Seq<bool>, rejects: nat) -> Seq<Placement> {
    Seq::new(rounds.len(), |k: int| Placement {
        kind: if rounds[k] { TokenKind::Good } else { TokenKind::Evil },
        x: quest_spot(players, (k + 1) as nat).0,
        y: quest_spot(players, (k + 1) as nat).1,
    }) + if rejects > 0 {
        seq![Placement { kind: TokenKind::Reject, x: reject_spot(players, rejects).0, y: reject_spot(players, rejects).1 }]
    } else {
        Seq::empty()
    }
}

impl BoardImage {
    /// The tokens to put on the empty board to make this picture.
    pub fn tokens(&self) -> (v: Vec<Placement>)
        requires
            5 <= self.players <= 10,
            self.rounds@.len() <= 5,
            self.rejects <= 5,
        ensures
            v@ == placements(self.players as nat, self.rounds@, self.rejects as nat),
    {
        let mut v: Vec<Placement> = Vec::new();
        let n = self.rounds.len();
        for k in 0..n
            invariant
                n == self.rounds@.len(),
                n <= 5,
                5 <= self.players <= 10,
                v@ == Seq::new(k as nat, |j: int| Placement {
                    kind: if self.rounds@[j] { TokenKind::Good } else { TokenKind::Evil },
                    x: quest_spot(self.players as nat, (j + 1) as nat).0,
                    y: quest_spot(self.players as nat, (j + 1) as nat).1,
                }),
        {
            let (x, y) = quest_position(self.players, k + 1);
            let kind = if self.rounds[k] { TokenKind::Good } else { TokenKind::Evil };
            v.push(Placement { kind, x, y });
            proof {
                assert(v@ =~= Seq::new((k + 1) as nat, |j: int| Placement {
                    kind: if self.rounds@[j] { TokenKind::Good } else { TokenKind::Evil },
                    x: quest_spot(self.players as nat, (j + 1) as nat).0,
                    y: quest_spot(self.players as nat, (j + 1) as nat).1,
                }));
            }
        }
        if self.rejects > 0 {
            let (x, y) = reject_position(self.players, self.rejects);
            v.push(Placement { kind: TokenKind::Reject, x, y });
        }
        assert(v@ =~= placements(self.players as nat, self.rounds@, self.rejects as nat));
        v
    }
}

} // verus!
