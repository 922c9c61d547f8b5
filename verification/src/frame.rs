//! The frame renderer: the drawing operations that show one turn.

use crate::color::{
    background, background_color, color_of, fallback_color, pick_color, Color, NEUTRAL_OWNER,
};
use crate::game::{has_planet, planet_with_id, Connection, Game, Planet};
use crate::playback::State;
use crate::transform::{draw_size_of, lemma_extent_stays_visible, Transform};
use vstd::prelude::*;

verus! {

/// One operation on the drawing surface. Positions are screen pixels.
#[derive(Clone, Copy, Debug, PartialEq, Eq)]
pub enum DrawCommand {
    /// Fill the whole surface with one colour.
    Clear { color: Color },
    /// A straight line between two points.
    Line { from: (i64, i64), to: (i64, i64), color: Color },
    /// A filled circle.
    Circle { center: (i64, i64), radius: u32, color: Color },
}

/// Screen position of a game position, as the surface takes it.
pub open spec fn pixel(transform: Transform, coord: (i32, i32)) -> (i64, i64) {
    (transform.screen_x(coord.0 as int) as i64, transform.screen_y(coord.1 as int) as i64)
}

/// The line that shows a connection, in the neutral owner's colour; none
/// where one of its ends names no planet.
pub open spec fn line_of(planets: Seq<Planet>, transform: Transform, connection: Connection)
    -> Option<DrawCommand> {
    match (planet_with_id(planets, connection.id_a), planet_with_id(planets, connection.id_b)) {
        (Some(a), Some(b)) => Some(
            DrawCommand::Line {
                from: pixel(transform, a.position),
                to: pixel(transform, b.position),
                color: color_of(NEUTRAL_OWNER as int),
            },
        ),
        _ => None,
    }
}

/// The lines of a frame: one for each connection that has both its ends,
/// in the connections' order.
pub open spec fn connection_lines(
    planets: Seq<Planet>,
    connections: Seq<Connection>,
    transform: Transform,
) -> Seq<DrawCommand> {
    connections.filter_map(|c: Connection| line_of(planets, transform, c))
}

/// The circle that shows a planet at a turn, in its owner's colour.
pub open spec fn circle_of(game: Game, transform: Transform, turn: int, planet: Planet)
    -> DrawCommand {
    DrawCommand::Circle {
        center: pixel(transform, planet.position),
        radius: transform.spec_radius() as u32,
        color: color_of(game.spec_owner_at(planet.id, turn) as int),
    }
}

/// The circles of a frame: one for each planet, in the planets' order.
pub open spec fn planet_circles(game: Game, transform: Transform, turn: int) -> Seq<DrawCommand> {
    game.cluster.planets@.map_values(|p: Planet| circle_of(game, transform, turn, p))
}

/// The frame of a turn: the surface is cleared to the background colour,
/// then come the connections' lines, then the planets' circles.
pub open spec fn frame(game: Game, transform: Transform, turn: int) -> Seq<DrawCommand> {
    seq![DrawCommand::Clear { color: background_color() }] + connection_lines(
        game.cluster.planets@,
        game.cluster.connections@,
        transform,
    ) + planet_circles(game, transform, turn)
}

/// Maps a position of the game to its position on the screen.
pub fn transform_coord(state: &State, coord: (i32, i32)) -> (position: (i64, i64))
    ensures
        position == pixel(state.transform, coord),
        position.0 == state.transform.screen_x(coord.0 as int),
        position.1 == state.transform.screen_y(coord.1 as int),
{
    state.transform.apply(coord)
}

/// Produces the frame of the state's current turn. The state is left as
/// it is, and the frame depends on nothing but the game, the turn and the
/// mapping to the screen.
pub fn draw(state: &State) -> (commands: Vec<DrawCommand>)
    ensures
        commands@ == frame(state.game, state.transform, state.turn as int),
{
    let radius = state.transform.radius();
    let mut commands: Vec<DrawCommand> = Vec::new();
    commands.push(DrawCommand::Clear { color: background() });

    let ghost planets = state.game.cluster.planets@;
    let ghost connections = state.game.cluster.connections@;
    let ghost to_line = |c: Connection| line_of(planets, state.transform, c);
    let mut i: usize = 0;
    while i < state.game.cluster.connections.len()
        invariant
            0 <= i <= connections.len(),
            planets == state.game.cluster.planets@,
            connections == state.game.cluster.connections@,
            to_line == |c: Connection| line_of(planets, state.transform, c),
            commands@ == seq![DrawCommand::Clear { color: background_color() }]
                + connections.take(i as int).filter_map(to_line),
        decreases connections.len() - i,
    {
        let connection = state.game.cluster.connections[i];
        proof {
            connections.lemma_filter_map_take_succ(to_line, i as int);
        }
        if let Some(a) = state.game.cluster.find_planet(connection.id_a) {
            if let Some(b) = state.game.cluster.find_planet(connection.id_b) {
                let from = transform_coord(state, a.position);
                let to = transform_coord(state, b.position);
                commands.push(DrawCommand::Line { from, to, color: pick_color(NEUTRAL_OWNER) });
            }
        }
        i += 1;
    }
    assert(connections.take(i as int) == connections);

    let ghost lines = commands@;
    let ghost to_circle = |p: Planet| circle_of(state.game, state.transform, state.turn as int, p);
    let mut k: usize = 0;
    while k < state.game.cluster.planets.len()
        invariant
            0 <= k <= planets.len(),
            planets == state.game.cluster.planets@,
            radius == state.transform.spec_radius(),
            to_circle == |p: Planet|
                circle_of(state.game, state.transform, state.turn as int, p),
            commands@ == lines + planets.take(k as int).map_values(to_circle),
        decreases planets.len() - k,
    {
        let planet = state.game.cluster.planets[k];
        let owner = state.game.owner_at(planet.id, state.turn);
        let center = transform_coord(state, planet.position);
        commands.push(DrawCommand::Circle { center, radius, color: pick_color(owner) });
        k += 1;
    }
    commands
}

/// Mapping the elements that a function keeps goes through concatenation.
proof fn lemma_filter_map_add<A, B>(a: Seq<A>, b: Seq<A>, f: spec_fn(A) -> Option<B>)
    ensures
        (a + b).filter_map(f) == a.filter_map(f) + b.filter_map(f),
    decreases b.len(),
{
    if b.len() > 0 {
        assert((a + b).drop_last() == a + b.drop_last());
        lemma_filter_map_add(a, b.drop_last(), f);
    }
}

/// No more lines are drawn than there are connections, and nothing but
/// lines.
proof fn lemma_connection_lines_shape(
    planets: Seq<Planet>,
    connections: Seq<Connection>,
    transform: Transform,
)
    ensures
        connection_lines(planets, connections, transform).len() <= connections.len(),
        forall|i: int|
            0 <= i < connection_lines(planets, connections, transform).len()
                ==> connection_lines(planets, connections, transform)[i] is Line,
    decreases connections.len(),
{
    if connections.len() > 0 {
        lemma_connection_lines_shape(planets, connections.drop_last(), transform);
    }
}

/// A frame is one clear to the background colour, then at most one line
/// for each connection, then exactly one circle for each planet. The
/// frame of a cluster without planets and connections is the clear alone.
pub proof fn lemma_frame_shape(game: Game, transform: Transform, turn: int)
    ensures
        ({
            let commands = frame(game, transform, turn);
            let lines = connection_lines(
                game.cluster.planets@,
                game.cluster.connections@,
                transform,
            );
            let planets = game.cluster.planets@;
            &&& commands[0] == DrawCommand::Clear { color: background_color() }
            &&& lines.len() <= game.cluster.connections@.len()
            &&& commands.len() == 1 + lines.len() + planets.len()
            &&& forall|i: int| 1 <= i < 1 + lines.len() ==> commands[i] is Line
            &&& forall|i: int|
                0 <= i < planets.len() ==> commands[1 + lines.len() + i] == circle_of(
                    game,
                    transform,
                    turn,
                    planets[i],
                )
            &&& planets.len() == 0 && game.cluster.connections@.len() == 0 ==> commands
                == seq![DrawCommand::Clear { color: background_color() }]
        }),
{
    lemma_connection_lines_shape(game.cluster.planets@, game.cluster.connections@, transform);
}

/// The frame is a function of the game, the turn and the mapping alone:
/// sessions that agree on these show the same sequence of drawing
/// operations, whatever else differs between them, and so does one
/// session asked twice.
pub proof fn lemma_frame_repeatable(first: State, second: State)
    requires
        first.game == second.game,
        first.turn == second.turn,
        first.transform == second.transform,
    ensures
        frame(first.game, first.transform, first.turn as int) == frame(
            second.game,
            second.transform,
            second.turn as int,
        ),
{
}

/// A connection with an end that names no planet draws nothing, and the
/// lines of the other connections are what they would be without it.
pub proof fn lemma_dangling_connection_skipped(
    planets: Seq<Planet>,
    connections: Seq<Connection>,
    transform: Transform,
    i: int,
)
    requires
        0 <= i < connections.len(),
        !has_planet(planets, connections[i].id_a) || !has_planet(planets, connections[i].id_b),
    ensures
        line_of(planets, transform, connections[i]).is_none(),
        connection_lines(planets, connections, transform) == connection_lines(
            planets,
            connections.remove(i),
            transform,
        ),
{
    let to_line = |c: Connection| line_of(planets, transform, c);
    let before = connections.take(i);
    let dangling = seq![connections[i]];
    let after = connections.skip(i + 1);
    assert(connections == before + dangling + after);
    assert(dangling.filter_map(to_line) == Seq::<DrawCommand>::empty()) by {
        reveal_with_fuel(Seq::filter_map, 2);
    }
    lemma_filter_map_add(before, dangling, to_line);
    lemma_filter_map_add(before + dangling, after, to_line);
    lemma_filter_map_add(before, after, to_line);
}

/// A planet without a recorded owner at the turn is drawn in the fallback
/// colour, at its place and with its radius like any other.
pub proof fn lemma_unrecorded_owner_drawn_in_fallback(
    game: Game,
    transform: Transform,
    turn: int,
    i: int,
)
    requires
        0 <= i < game.cluster.planets@.len(),
        !game.has_owner(game.cluster.planets@[i].id, turn),
    ensures
        planet_circles(game, transform, turn)[i] == (DrawCommand::Circle {
            center: pixel(transform, game.cluster.planets@[i].position),
            radius: transform.spec_radius() as u32,
            color: fallback_color(),
        }),
{
}

/// A planet that lies within the cluster's extent is drawn whole: the
/// circle that the frame holds for it lies on the screen, inside the
/// square drawing region.
pub proof fn lemma_planet_drawn_whole(
    game: Game,
    transform: Transform,
    screen_width: u32,
    screen_height: u32,
    turn: int,
    i: int,
)
    requires
        transform.fits(screen_width, screen_height, game.cluster.spec_extent()),
        0 <= i < game.cluster.planets@.len(),
        0 <= game.cluster.planets@[i].position.0 <= game.cluster.spec_extent().0,
        0 <= game.cluster.planets@[i].position.1 <= game.cluster.spec_extent().1,
    ensures
        planet_circles(game, transform, turn)[i] matches DrawCommand::Circle {
            center,
            radius,
            ..
        } && {
            let side = draw_size_of(screen_width as int, screen_height as int);
            let left = (screen_width - side) / 2;
            let top = (screen_height - side) / 2;
            &&& radius == side / 175
            &&& 0 <= left <= center.0 - radius
            &&& center.0 + radius <= left + side <= screen_width
            &&& 0 <= top <= center.1 - radius
            &&& center.1 + radius <= top + side <= screen_height
        },
{
    lemma_extent_stays_visible(
        transform,
        screen_width,
        screen_height,
        game.cluster.spec_extent(),
        game.cluster.planets@[i].position,
    );
}

} // verus!
