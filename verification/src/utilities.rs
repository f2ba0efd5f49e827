//! Legal-action enumeration, checkmate and stalemate, and material count.
//! Enumeration is brute force: every candidate action is constructed and
//! kept exactly when `is_legal` accepts it.

use vstd::prelude::*;

use crate::actions::{
    Action, Capture, Castle, CastleDirection, EnPassant, Move, Promotion, action_applied_board,
    action_apply_post, action_can_apply, action_is_legal_spec, capture_is_legal_spec,
    castle_is_legal_spec, en_passant_is_legal_spec, lemma_check_safety_closure,
    lemma_legal_action_can_apply, move_is_legal_spec, promotion_is_legal_spec,
};
use crate::gamestate::GameState;
use crate::pieces::{Color, Piece, PieceName};
use crate::rules::{color_checked, color_is_checked, spec_delta_x};

verus! {

/// A sequence keeps everything it contained when a value is pushed onto it.
proof fn lemma_push_keeps_contains<T>(s: Seq<T>, x: T, y: T)
    requires
        s.contains(y),
    ensures
        s.push(x).contains(y),
{
    let i = choose|i: int| 0 <= i < s.len() && s[i] == y;
    assert(s.push(x)[i] == y);
}

/// Pushing a value onto a sequence adds it and keeps everything else.
proof fn lemma_push_properties<T>(s: Seq<T>, x: T)
    ensures
        s.push(x).contains(x),
        forall|y: T| s.contains(y) ==> #[trigger] s.push(x).contains(y),
{
    assert(s.push(x)[s.len() as int] == x);
    assert forall|y: T| s.contains(y) implies #[trigger] s.push(x).contains(y) by {
        lemma_push_keeps_contains(s, x, y);
    }
}

/// The square holds a piece of the side to move.
pub open spec fn moves_own_piece(s: GameState, from: int) -> bool {
    match s.squares@[from] {
        Some(p) => p.color == s.to_move,
        None => false,
    }
}

/// A promotion that advances straight ahead (the shape enumeration
/// generates; capturing promotions are legal but must be constructed by the
/// caller).
pub open spec fn straight_promotion(p: Promotion) -> bool {
    spec_delta_x(p.moving_from as int, p.to as int) == 0
}

/// Every legal relocation of a piece of the side to move: each of the 64
/// origin squares holding such a piece, paired with each of the 64
/// destinations, filtered through `Move::is_legal`.
pub fn legal_moves(state: &GameState) -> (r: Vec<Move>)
    ensures
        forall|i: int|
            0 <= i < r@.len() ==> move_is_legal_spec(#[trigger] r@[i], *state) && moves_own_piece(
                *state,
                r@[i].from as int,
            ),
        forall|m: Move|
            #[trigger] move_is_legal_spec(m, *state) && moves_own_piece(*state, m.from as int)
                ==> r@.contains(m),
{
    let mut results: Vec<Move> = Vec::new();
    let mut from: usize = 0;
    while from < 64
        invariant
            from <= 64,
            forall|i: int|
                0 <= i < results@.len() ==> move_is_legal_spec(#[trigger] results@[i], *state)
                    && moves_own_piece(*state, results@[i].from as int),
            forall|m: Move|
                #[trigger] move_is_legal_spec(m, *state) && moves_own_piece(*state, m.from as int)
                    && m.from < from ==> results@.contains(m),
        decreases 64 - from,
    {
        if state.squares[from].is_some() {
            let piece = state.squares[from].unwrap();
            if piece.color == state.to_move {
                let mut to: usize = 0;
                while to < 64
                    invariant
                        from < 64,
                        to <= 64,
                        moves_own_piece(*state, from as int),
                        forall|i: int|
                            0 <= i < results@.len() ==> move_is_legal_spec(
                                #[trigger] results@[i],
                                *state,
                            ) && moves_own_piece(*state, results@[i].from as int),
                        forall|m: Move|
                            #[trigger] move_is_legal_spec(m, *state) && moves_own_piece(
                                *state,
                                m.from as int,
                            ) && m.from < from ==> results@.contains(m),
                        forall|m: Move|
                            #[trigger] move_is_legal_spec(m, *state) && moves_own_piece(
                                *state,
                                m.from as int,
                            ) && m.from == from && m.to < to ==> results@.contains(m),
                    decreases 64 - to,
                {
                    let action = Move { from, to };
                    if action.is_legal(state) {
                        proof {
                            assert forall|m: Move| results@.contains(m) implies results@.push(
                                action,
                            ).contains(m) by {
                                lemma_push_keeps_contains(results@, action, m);
                            }
                        }
                        results.push(action);
                        proof {
                            assert(results@[results@.len() - 1] == action);
                            assert(results@.contains(action));
                        }
                    }
                    to = to + 1;
                }
            }
        }
        from = from + 1;
    }
    results
}

/// Every legal capture by the side to move, found the same brute-force way.
pub fn legal_captures(state: &GameState) -> (r: Vec<Capture>)
    ensures
        forall|i: int| 0 <= i < r@.len() ==> capture_is_legal_spec(#[trigger] r@[i], *state),
        forall|c: Capture| #[trigger] capture_is_legal_spec(c, *state) ==> r@.contains(c),
{
    let mut results: Vec<Capture> = Vec::new();
    let mut with: usize = 0;
    while with < 64
        invariant
            with <= 64,
            forall|i: int|
                0 <= i < results@.len() ==> capture_is_legal_spec(#[trigger] results@[i], *state),
            forall|c: Capture|
                #[trigger] capture_is_legal_spec(c, *state) && c.with < with ==> results@.contains(
                    c,
                ),
        decreases 64 - with,
    {
        if state.squares[with].is_some() {
            let piece = state.squares[with].unwrap();
            if piece.color == state.to_move {
                let mut on: usize = 0;
                while on < 64
                    invariant
                        with < 64,
                        on <= 64,
                        forall|i: int|
                            0 <= i < results@.len() ==> capture_is_legal_spec(
                                #[trigger] results@[i],
                                *state,
                            ),
                        forall|c: Capture|
                            #[trigger] capture_is_legal_spec(c, *state) && c.with < with
                                ==> results@.contains(c),
                        forall|c: Capture|
                            #[trigger] capture_is_legal_spec(c, *state) && c.with == with && c.on
                                < on ==> results@.contains(c),
                    decreases 64 - on,
                {
                    let action = Capture { on, with };
                    if action.is_legal(state) {
                        proof {
                            assert forall|c: Capture| results@.contains(c) implies results@.push(
                                action,
                            ).contains(c) by {
                                lemma_push_keeps_contains(results@, action, c);
                            }
                        }
                        results.push(action);
                        proof {
                            assert(results@[results@.len() - 1] == action);
                            assert(results@.contains(action));
                        }
                    }
                    on = on + 1;
                }
            }
        }
        with = with + 1;
    }
    results
}

/// Every legal en-passant capture.  Only a pawn one capture-delta away from
/// the en-passant square can take it, so at most the four diagonal
/// neighbours of that square are candidates.
pub fn legal_en_passants(state: &GameState) -> (r: Vec<EnPassant>)
    ensures
        forall|i: int| 0 <= i < r@.len() ==> en_passant_is_legal_spec(#[trigger] r@[i], *state),
        forall|e: EnPassant| #[trigger] en_passant_is_legal_spec(e, *state) ==> r@.contains(e),
{
    let mut results: Vec<EnPassant> = Vec::new();
    let destination = match state.en_passant_square {
        Some(d) => d,
        None => {
            return results;
        },
    };
    if destination > 63 {
        return results;
    }
    proof {
        assert forall|e: EnPassant| #[trigger] en_passant_is_legal_spec(e, *state) implies (
        e.with as int == destination - 7 || e.with as int == destination + 7 || e.with as int
            == destination - 9 || e.with as int == destination + 9) by {
            let w = e.with as int;
            let d = destination as int;
            assert(w == 8 * (w / 8) + (w % 8));
            assert(d == 8 * (d / 8) + (d % 8));
        }
    }
    if destination >= 7 {
        push_legal_en_passant(&mut results, destination - 7, state);
    }
    push_legal_en_passant(&mut results, destination + 7, state);
    if destination >= 9 {
        push_legal_en_passant(&mut results, destination - 9, state);
    }
    push_legal_en_passant(&mut results, destination + 9, state);
    proof {
        assert forall|e: EnPassant| #[trigger] en_passant_is_legal_spec(e, *state) implies
        results@.contains(e) by {
            let w = e.with as int;
            let d = destination as int;
            assert(w == d - 7 || w == d + 7 || w == d - 9 || w == d + 9);
        }
    }
    results
}

/// Try one en-passant candidate square and keep it when legal.
fn push_legal_en_passant(results: &mut Vec<EnPassant>, with: usize, state: &GameState)
    ensures
        forall|i: int|
            0 <= i < final(results)@.len() ==> old(results)@.contains(
                #[trigger] final(results)@[i],
            ) || en_passant_is_legal_spec(final(results)@[i], *state),
        forall|e: EnPassant| old(results)@.contains(e) ==> final(results)@.contains(e),
        forall|e: EnPassant|
            #[trigger] en_passant_is_legal_spec(e, *state) && e.with == with
                ==> final(results)@.contains(e),
{
    let action = EnPassant { with };
    if action.is_legal(state) {
        proof {
            assert forall|e: EnPassant| results@.contains(e) implies results@.push(
                action,
            ).contains(e) by {
                lemma_push_keeps_contains(results@, action, e);
            }
        }
        results.push(action);
        proof {
            assert(results@[results@.len() - 1] == action);
            assert(results@.contains(action));
        }
    }
}

/// Every legal castle: at most the two directions.
pub fn legal_castles(state: &GameState) -> (r: Vec<Castle>)
    ensures
        forall|i: int| 0 <= i < r@.len() ==> castle_is_legal_spec(#[trigger] r@[i], *state),
        forall|c: Castle| #[trigger] castle_is_legal_spec(c, *state) ==> r@.contains(c),
{
    let mut results: Vec<Castle> = Vec::new();
    let kingside = Castle { direction: CastleDirection::Kingside };
    if kingside.is_legal(state) {
        results.push(kingside);
        proof {
            assert(results@[results@.len() - 1] == kingside);
            assert(results@.contains(kingside));
        }
    }
    proof {
        assert(castle_is_legal_spec(kingside, *state) ==> results@.contains(kingside));
    }
    let ghost after_kingside = results@;
    let queenside = Castle { direction: CastleDirection::Queenside };
    if queenside.is_legal(state) {
        proof {
            assert forall|c: Castle| after_kingside.contains(c) implies after_kingside.push(
                queenside,
            ).contains(c) by {
                lemma_push_keeps_contains(after_kingside, queenside, c);
            }
        }
        results.push(queenside);
        proof {
            assert(results@[results@.len() - 1] == queenside);
            assert(results@.contains(queenside));
        }
    }
    proof {
        assert(castle_is_legal_spec(kingside, *state) ==> results@.contains(kingside));
        assert(castle_is_legal_spec(queenside, *state) ==> results@.contains(queenside));
        assert forall|c: Castle| #[trigger] castle_is_legal_spec(c, *state) implies
        results@.contains(c) by {
            match c.direction {
                CastleDirection::Kingside => {
                    assert(c == kingside);
                },
                CastleDirection::Queenside => {
                    assert(c == queenside);
                },
            }
        }
    }
    results
}

/// Every legal straight-ahead promotion: each pawn on the rank before the
/// last one, times the four pieces it may become.  A capturing promotion is
/// legal too but is not enumerated here.
pub fn legal_promotions(state: &GameState) -> (r: Vec<Promotion>)
    ensures
        forall|i: int|
            0 <= i < r@.len() ==> promotion_is_legal_spec(#[trigger] r@[i], *state)
                && straight_promotion(r@[i]),
        forall|p: Promotion|
            #[trigger] promotion_is_legal_spec(p, *state) && straight_promotion(p)
                ==> r@.contains(p),
{
    let mut results: Vec<Promotion> = Vec::new();
    match state.to_move {
        Color::White => {
            let mut square: usize = 48;
            while square < 56
                invariant
                    48 <= square <= 56,
                    state.to_move is White,
                    forall|i: int|
                        0 <= i < results@.len() ==> promotion_is_legal_spec(
                            #[trigger] results@[i],
                            *state,
                        ) && straight_promotion(results@[i]),
                    forall|p: Promotion|
                        #[trigger] promotion_is_legal_spec(p, *state) && straight_promotion(p)
                            && p.moving_from < square ==> results@.contains(p),
                decreases 56 - square,
            {
                push_legal_promotions_from(&mut results, square, square + 8, state);
                proof {
                    assert forall|p: Promotion|
                        #[trigger] promotion_is_legal_spec(p, *state) && straight_promotion(p)
                            && p.moving_from == square implies results@.contains(p) by {
                        let f = p.moving_from as int;
                        let t = p.to as int;
                        assert(f == 8 * (f / 8) + (f % 8));
                        assert(t == 8 * (t / 8) + (t % 8));
                        assert(p.to == square + 8);
                    }
                }
                square = square + 1;
            }
        },
        Color::Black => {
            let mut square: usize = 8;
            while square < 16
                invariant
                    8 <= square <= 16,
                    state.to_move is Black,
                    forall|i: int|
                        0 <= i < results@.len() ==> promotion_is_legal_spec(
                            #[trigger] results@[i],
                            *state,
                        ) && straight_promotion(results@[i]),
                    forall|p: Promotion|
                        #[trigger] promotion_is_legal_spec(p, *state) && straight_promotion(p)
                            && p.moving_from < square ==> results@.contains(p),
                decreases 16 - square,
            {
                push_legal_promotions_from(&mut results, square, square - 8, state);
                proof {
                    assert forall|p: Promotion|
                        #[trigger] promotion_is_legal_spec(p, *state) && straight_promotion(p)
                            && p.moving_from == square implies results@.contains(p) by {
                        let f = p.moving_from as int;
                        let t = p.to as int;
                        assert(f == 8 * (f / 8) + (f % 8));
                        assert(t == 8 * (t / 8) + (t % 8));
                        assert(p.to == square - 8);
                    }
                }
                square = square + 1;
            }
        },
    }
    proof {
        assert forall|p: Promotion|
            #[trigger] promotion_is_legal_spec(p, *state) && straight_promotion(p) implies
        results@.contains(p) by {
            match state.to_move {
                Color::White => assert(48 <= p.moving_from < 56),
                Color::Black => assert(8 <= p.moving_from < 16),
            }
        }
    }
    results
}

/// Try the four promotion pieces for one pawn square and keep the legal
/// ones.
fn push_legal_promotions_from(
    results: &mut Vec<Promotion>,
    moving_from: usize,
    to: usize,
    state: &GameState,
)
    requires
        to as int == moving_from as int + 8 || to as int == moving_from as int - 8,
    ensures
        forall|i: int|
            0 <= i < final(results)@.len() ==> old(results)@.contains(
                #[trigger] final(results)@[i],
            ) || (promotion_is_legal_spec(final(results)@[i], *state) && straight_promotion(
                final(results)@[i],
            )),
        forall|p: Promotion| old(results)@.contains(p) ==> final(results)@.contains(p),
        forall|p: Promotion|
            #[trigger] promotion_is_legal_spec(p, *state) && p.moving_from == moving_from && p.to
                == to ==> final(results)@.contains(p),
{
    let targets = [
        PieceName::Bishop,
        PieceName::Knight,
        PieceName::Rook,
        PieceName::Queen,
    ];
    let mut t: usize = 0;
    proof {
        assert(spec_delta_x(moving_from as int, to as int) == 0) by {
            let f = moving_from as int;
            assert((f + 8) % 8 == f % 8);
            assert((f - 8) % 8 == f % 8);
        }
    }
    while t < 4
        invariant
            t <= 4,
            spec_delta_x(moving_from as int, to as int) == 0,
            targets@ =~= seq![
                PieceName::Bishop,
                PieceName::Knight,
                PieceName::Rook,
                PieceName::Queen,
            ],
            forall|i: int|
                0 <= i < results@.len() ==> old(results)@.contains(#[trigger] results@[i]) || (
                promotion_is_legal_spec(results@[i], *state) && straight_promotion(results@[i])),
            forall|p: Promotion| old(results)@.contains(p) ==> results@.contains(p),
            forall|p: Promotion|
                #[trigger] promotion_is_legal_spec(p, *state) && p.moving_from == moving_from
                    && p.to == to && (exists|j: int|
                    0 <= j < t && targets@[j] == p.pawn_becomes) ==> results@.contains(p),
        decreases 4 - t,
    {
        let action = Promotion { pawn_becomes: targets[t], moving_from, to };
        if action.is_legal(state) {
            proof {
                assert forall|p: Promotion| results@.contains(p) implies results@.push(
                    action,
                ).contains(p) by {
                    lemma_push_keeps_contains(results@, action, p);
                }
            }
            results.push(action);
            proof {
                assert(results@[results@.len() - 1] == action);
                assert(results@.contains(action));
            }
        }
        t = t + 1;
    }
    proof {
        assert forall|p: Promotion|
            #[trigger] promotion_is_legal_spec(p, *state) && p.moving_from == moving_from && p.to
                == to implies results@.contains(p) by {
            if p.pawn_becomes is Bishop {
                assert(targets@[0] == p.pawn_becomes);
            } else if p.pawn_becomes is Knight {
                assert(targets@[1] == p.pawn_becomes);
            } else if p.pawn_becomes is Rook {
                assert(targets@[2] == p.pawn_becomes);
            } else {
                assert(targets@[3] == p.pawn_becomes);
            }
        }
    }
}

/// The shapes that enumeration generates: moves of the side to move's own
/// pieces, straight promotions, and every capture, en-passant and castle.
pub open spec fn enumerable_action(a: Action, s: GameState) -> bool {
    match a {
        Action::Move(m) => moves_own_piece(s, m.from as int),
        Action::Promotion(p) => straight_promotion(p),
        _ => true,
    }
}

/// Some action that enumeration can find is legal.
pub open spec fn spec_has_legal_action(s: GameState) -> bool {
    exists|a: Action| action_is_legal_spec(a, s) && enumerable_action(a, s)
}

/// Every legal action of every kind, as one uniform collection: the
/// concatenation of the five per-kind enumerations.
pub fn legal_actions(state: &GameState) -> (r: Vec<Action>)
    ensures
        forall|i: int|
            0 <= i < r@.len() ==> action_is_legal_spec(#[trigger] r@[i], *state)
                && enumerable_action(r@[i], *state),
        forall|m: Move|
            #[trigger] move_is_legal_spec(m, *state) && moves_own_piece(*state, m.from as int)
                ==> r@.contains(Action::Move(m)),
        forall|c: Capture|
            #[trigger] capture_is_legal_spec(c, *state) ==> r@.contains(Action::Capture(c)),
        forall|e: EnPassant|
            #[trigger] en_passant_is_legal_spec(e, *state) ==> r@.contains(Action::EnPassant(e)),
        forall|c: Castle|
            #[trigger] castle_is_legal_spec(c, *state) ==> r@.contains(Action::Castle(c)),
        forall|p: Promotion|
            #[trigger] promotion_is_legal_spec(p, *state) && straight_promotion(p) ==> r@.contains(
                Action::Promotion(p),
            ),
{
    let mut results: Vec<Action> = Vec::new();
    let moves = legal_moves(state);
    let mut i: usize = 0;
    while i < moves.len()
        invariant
            i <= moves.len(),
            forall|k: int|
                0 <= k < moves@.len() ==> move_is_legal_spec(#[trigger] moves@[k], *state)
                    && moves_own_piece(*state, moves@[k].from as int),
            forall|j: int|
                0 <= j < results@.len() ==> action_is_legal_spec(#[trigger] results@[j], *state)
                    && enumerable_action(results@[j], *state),
            forall|k: int| 0 <= k < i ==> results@.contains(Action::Move(#[trigger] moves@[k])),
        decreases moves.len() - i,
    {
        let ghost pre = results@;
        results.push(Action::Move(moves[i]));
        proof {
            lemma_push_properties(pre, Action::Move(moves@[i as int]));
        }
        i = i + 1;
    }
    proof {
        assert forall|m: Move|
            #[trigger] move_is_legal_spec(m, *state) && moves_own_piece(*state, m.from as int)
            implies results@.contains(Action::Move(m)) by {
            let k = choose|k: int| 0 <= k < moves@.len() && moves@[k] == m;
            assert(results@.contains(Action::Move(moves@[k])));
        }
    }
    let captures = legal_captures(state);
    let mut i: usize = 0;
    while i < captures.len()
        invariant
            i <= captures.len(),
            forall|k: int|
                0 <= k < captures@.len() ==> capture_is_legal_spec(#[trigger] captures@[k], *state),
            forall|j: int|
                0 <= j < results@.len() ==> action_is_legal_spec(#[trigger] results@[j], *state)
                    && enumerable_action(results@[j], *state),
            forall|m: Move|
                #[trigger] move_is_legal_spec(m, *state) && moves_own_piece(*state, m.from as int)
                    ==> results@.contains(Action::Move(m)),
            forall|k: int|
                0 <= k < i ==> results@.contains(Action::Capture(#[trigger] captures@[k])),
        decreases captures.len() - i,
    {
        let ghost pre = results@;
        results.push(Action::Capture(captures[i]));
        proof {
            lemma_push_properties(pre, Action::Capture(captures@[i as int]));
        }
        i = i + 1;
    }
    proof {
        assert forall|c: Capture| #[trigger] capture_is_legal_spec(c, *state) implies
        results@.contains(Action::Capture(c)) by {
            let k = choose|k: int| 0 <= k < captures@.len() && captures@[k] == c;
            assert(results@.contains(Action::Capture(captures@[k])));
        }
    }
    let en_passants = legal_en_passants(state);
    let mut i: usize = 0;
    while i < en_passants.len()
        invariant
            i <= en_passants.len(),
            forall|k: int|
                0 <= k < en_passants@.len() ==> en_passant_is_legal_spec(
                    #[trigger] en_passants@[k],
                    *state,
                ),
            forall|j: int|
                0 <= j < results@.len() ==> action_is_legal_spec(#[trigger] results@[j], *state)
                    && enumerable_action(results@[j], *state),
            forall|m: Move|
                #[trigger] move_is_legal_spec(m, *state) && moves_own_piece(*state, m.from as int)
                    ==> results@.contains(Action::Move(m)),
            forall|c: Capture|
                #[trigger] capture_is_legal_spec(c, *state) ==> results@.contains(
                    Action::Capture(c),
                ),
            forall|k: int|
                0 <= k < i ==> results@.contains(Action::EnPassant(#[trigger] en_passants@[k])),
        decreases en_passants.len() - i,
    {
        let ghost pre = results@;
        results.push(Action::EnPassant(en_passants[i]));
        proof {
            lemma_push_properties(pre, Action::EnPassant(en_passants@[i as int]));
        }
        i = i + 1;
    }
    proof {
        assert forall|e: EnPassant| #[trigger] en_passant_is_legal_spec(e, *state) implies
        results@.contains(Action::EnPassant(e)) by {
            let k = choose|k: int| 0 <= k < en_passants@.len() && en_passants@[k] == e;
            assert(results@.contains(Action::EnPassant(en_passants@[k])));
        }
    }
    let castles = legal_castles(state);
    let mut i: usize = 0;
    while i < castles.len()
        invariant
            i <= castles.len(),
            forall|k: int|
                0 <= k < castles@.len() ==> castle_is_legal_spec(#[trigger] castles@[k], *state),
            forall|j: int|
                0 <= j < results@.len() ==> action_is_legal_spec(#[trigger] results@[j], *state)
                    && enumerable_action(results@[j], *state),
            forall|m: Move|
                #[trigger] move_is_legal_spec(m, *state) && moves_own_piece(*state, m.from as int)
                    ==> results@.contains(Action::Move(m)),
            forall|c: Capture|
                #[trigger] capture_is_legal_spec(c, *state) ==> results@.contains(
                    Action::Capture(c),
                ),
            forall|e: EnPassant|
                #[trigger] en_passant_is_legal_spec(e, *state) ==> results@.contains(
                    Action::EnPassant(e),
                ),
            forall|k: int| 0 <= k < i ==> results@.contains(Action::Castle(#[trigger] castles@[k])),
        decreases castles.len() - i,
    {
        let ghost pre = results@;
        results.push(Action::Castle(castles[i]));
        proof {
            lemma_push_properties(pre, Action::Castle(castles@[i as int]));
        }
        i = i + 1;
    }
    proof {
        assert forall|c: Castle| #[trigger] castle_is_legal_spec(c, *state) implies
        results@.contains(Action::Castle(c)) by {
            let k = choose|k: int| 0 <= k < castles@.len() && castles@[k] == c;
            assert(results@.contains(Action::Castle(castles@[k])));
        }
    }
    let promotions = legal_promotions(state);
    let mut i: usize = 0;
    while i < promotions.len()
        invariant
            i <= promotions.len(),
            forall|k: int|
                0 <= k < promotions@.len() ==> promotion_is_legal_spec(
                    #[trigger] promotions@[k],
                    *state,
                ) && straight_promotion(promotions@[k]),
            forall|j: int|
                0 <= j < results@.len() ==> action_is_legal_spec(#[trigger] results@[j], *state)
                    && enumerable_action(results@[j], *state),
            forall|m: Move|
                #[trigger] move_is_legal_spec(m, *state) && moves_own_piece(*state, m.from as int)
                    ==> results@.contains(Action::Move(m)),
            forall|c: Capture|
                #[trigger] capture_is_legal_spec(c, *state) ==> results@.contains(
                    Action::Capture(c),
                ),
            forall|e: EnPassant|
                #[trigger] en_passant_is_legal_spec(e, *state) ==> results@.contains(
                    Action::EnPassant(e),
                ),
            forall|c: Castle|
                #[trigger] castle_is_legal_spec(c, *state) ==> results@.contains(Action::Castle(c)),
            forall|k: int|
                0 <= k < i ==> results@.contains(Action::Promotion(#[trigger] promotions@[k])),
        decreases promotions.len() - i,
    {
        let ghost pre = results@;
        results.push(Action::Promotion(promotions[i]));
        proof {
            lemma_push_properties(pre, Action::Promotion(promotions@[i as int]));
        }
        i = i + 1;
    }
    proof {
        assert forall|p: Promotion|
            #[trigger] promotion_is_legal_spec(p, *state) && straight_promotion(p) implies
        results@.contains(Action::Promotion(p)) by {
            let k = choose|k: int| 0 <= k < promotions@.len() && promotions@[k] == p;
            assert(results@.contains(Action::Promotion(promotions@[k])));
        }
    }
    results
}

/// The board every apply-result carries, once the action's structural
/// preconditions hold.
proof fn lemma_apply_post_board(a: Action, s: GameState, r: GameState)
    requires
        action_can_apply(a, s),
        action_apply_post(a, s, r),
    ensures
        r.squares@ == action_applied_board(a, s),
{
}

/// The state arose from applying some legal, enumerable action to `s`.
pub open spec fn reached_by_legal_action(s: GameState, r: GameState) -> bool {
    exists|a: Action|
        action_is_legal_spec(a, s) && enumerable_action(a, s) && #[trigger] action_apply_post(
            a,
            s,
            r,
        )
}

/// Every position one legal action away: the same enumeration, each action
/// immediately applied.  None of them leaves the side that just moved in
/// check.
pub fn legal_next_states(state: &GameState) -> (r: Vec<GameState>)
    ensures
        forall|i: int| 0 <= i < r@.len() ==> reached_by_legal_action(*state, #[trigger] r@[i]),
        forall|i: int| 0 <= i < r@.len() ==> !color_checked(#[trigger] r@[i].squares@, state.to_move),
{
    let actions = legal_actions(state);
    let mut results: Vec<GameState> = Vec::new();
    let mut i: usize = 0;
    while i < actions.len()
        invariant
            i <= actions.len(),
            forall|k: int|
                0 <= k < actions@.len() ==> action_is_legal_spec(#[trigger] actions@[k], *state)
                    && enumerable_action(actions@[k], *state),
            forall|j: int|
                0 <= j < results@.len() ==> reached_by_legal_action(
                    *state,
                    #[trigger] results@[j],
                ),
            forall|j: int|
                0 <= j < results@.len() ==> !color_checked(
                    #[trigger] results@[j].squares@,
                    state.to_move,
                ),
        decreases actions.len() - i,
    {
        let action = actions[i];
        proof {
            lemma_legal_action_can_apply(action, *state);
        }
        let next = action.apply(state);
        proof {
            lemma_apply_post_board(action, *state, next);
            lemma_check_safety_closure(action, *state);
        }
        results.push(next);
        proof {
            assert(results@[results@.len() - 1] == next);
            assert(action_apply_post(action, *state, next));
            assert(reached_by_legal_action(*state, next));
        }
        i = i + 1;
    }
    results
}

/// Checkmate and stalemate as the spec sees them: no enumerable action is
/// legal, with and without the king standing in check.
pub open spec fn spec_is_checkmate(s: GameState) -> bool {
    color_checked(s.squares@, s.to_move) && !spec_has_legal_action(s)
}

pub open spec fn spec_is_stalemate(s: GameState) -> bool {
    !color_checked(s.squares@, s.to_move) && !spec_has_legal_action(s)
}

/// Whether the side to move has any legal action at all: the enumeration is
/// non-empty exactly when one exists.
fn any_legal_action(state: &GameState) -> (r: bool)
    ensures
        r == spec_has_legal_action(*state),
{
    let actions = legal_actions(state);
    proof {
        if actions@.len() == 0 {
            assert forall|a: Action|
                action_is_legal_spec(a, *state) && enumerable_action(a, *state) implies false by {
                match a {
                    Action::Move(m) => assert(actions@.contains(Action::Move(m))),
                    Action::Capture(c) => assert(actions@.contains(Action::Capture(c))),
                    Action::EnPassant(e) => assert(actions@.contains(Action::EnPassant(e))),
                    Action::Castle(c) => assert(actions@.contains(Action::Castle(c))),
                    Action::Promotion(p) => assert(actions@.contains(Action::Promotion(p))),
                }
            }
        } else {
            assert(action_is_legal_spec(actions@[0], *state) && enumerable_action(
                actions@[0],
                *state,
            ));
            assert(spec_has_legal_action(*state));
        }
    }
    actions.len() > 0
}

/// The side to move is in check and has no legal action.
pub fn is_checkmate(state: &GameState) -> (r: bool)
    ensures
        r == spec_is_checkmate(*state),
{
    let checked = color_is_checked(state.to_move, state);
    checked && !any_legal_action(state)
}

/// The side to move is not in check yet has no legal action.
pub fn is_stalemate(state: &GameState) -> (r: bool)
    ensures
        r == spec_is_stalemate(*state),
{
    let checked = color_is_checked(state.to_move, state);
    !checked && !any_legal_action(state)
}

/// Checkmate and stalemate exclude one another: one asks for a check that
/// the other forbids.
pub proof fn lemma_checkmate_stalemate_exclusive(s: GameState)
    ensures
        !(spec_is_checkmate(s) && spec_is_stalemate(s)),
{
}

/// The conventional point value of a piece kind.
pub open spec fn spec_piece_value(name: PieceName) -> int {
    match name {
        PieceName::Pawn => 1,
        PieceName::Bishop => 3,
        PieceName::Knight => 3,
        PieceName::Rook => 5,
        PieceName::Queen => 9,
        PieceName::King => 0,
    }
}

pub fn piece_value(name: &PieceName) -> (r: usize)
    ensures
        r == spec_piece_value(*name),
{
    match name {
        PieceName::Pawn => 1,
        PieceName::Bishop => 3,
        PieceName::Knight => 3,
        PieceName::Rook => 5,
        PieceName::Queen => 9,
        PieceName::King => 0,
    }
}

/// The total point value of the pieces of `color` on the first `i` squares.
pub open spec fn material_upto(board: Seq<Option<Piece>>, color: Color, i: int) -> int
    decreases i,
{
    if i <= 0 {
        0
    } else {
        material_upto(board, color, i - 1) + (match board[i - 1] {
            Some(p) => if p.color == color {
                spec_piece_value(p.name)
            } else {
                0
            },
            None => 0,
        })
    }
}

/// The total point value of the pieces of one color on the board.
fn material_of_color(state: &GameState, color: Color) -> (r: usize)
    ensures
        r == material_upto(state.squares@, color, 64),
{
    let mut total: usize = 0;
    let mut square: usize = 0;
    while square < 64
        invariant
            square <= 64,
            total == material_upto(state.squares@, color, square as int),
            total <= 9 * square,
        decreases 64 - square,
    {
        match state.squares[square] {
            Some(piece) => {
                if piece.color == color {
                    total = total + piece_value(&piece.name);
                }
            },
            None => {},
        }
        square = square + 1;
    }
    total
}

/// The simple point count of both sides: pawn 1, knight and bishop 3, rook
/// 5, queen 9, king 0.
pub fn relative_material_values(state: &GameState) -> (r: (usize, usize))
    ensures
        r.0 == material_upto(state.squares@, Color::White, 64),
        r.1 == material_upto(state.squares@, Color::Black, 64),
{
    let white = material_of_color(state, Color::White);
    let black = material_of_color(state, Color::Black);
    (white, black)
}

} // verus!
