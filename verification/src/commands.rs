use vstd::prelude::*;

use crate::error::Error;
use crate::terminal;
use crate::terminal::Terminal;

verus! {

/// The opaque failure of a rendered command.
///
/// A command value can only signal success or failure when rendered: the
/// underlying error's detail is discarded at this boundary. Callers that
/// need diagnostics use the function API, which returns `Error`.
#[derive(Clone, Copy, Debug, PartialEq, Eq, Structural)]
pub struct RenderError;

/// Collapse a detailed outcome into a render outcome: any error becomes
/// the one opaque render failure.
pub open spec fn collapsed<T>(r: Result<T, Error>) -> Result<(), RenderError> {
    match r {
        Ok(_) => Ok(()),
        Err(_) => Err(RenderError),
    }
}

impl Terminal {
    /// Does the arithmetic of a relative move by (`dx`, `dy`) stay within
    /// the machine integers? Trivially so when the position query fails,
    /// since no target is computed then.
    pub open spec fn rel_fits(&self, dx: int, dy: int) -> bool {
        match self.get_result() {
            Ok(p) => {
                &&& i32::MIN <= p.0 + dx <= i32::MAX
                &&& i32::MIN <= p.1 + dy <= i32::MAX
            },
            Err(_) => true,
        }
    }

    /// The outcome of a relative move: query the position, then set the
    /// cursor to the reported position plus the delta; any failure is
    /// collapsed into the render failure.
    pub open spec fn rel_result(&self, dx: int, dy: int) -> Result<(), RenderError> {
        match self.get_result() {
            Ok(p) => collapsed(self.set_result((p.0 + dx) as i32, (p.1 + dy) as i32)),
            Err(_) => Err(RenderError),
        }
    }

    /// How a relative move carries the terminal to `post`: the query step,
    /// then — when the query succeeded — the set step toward the reported
    /// position plus the delta. The two steps are not atomic; the
    /// intermediate terminal is witness to that.
    pub open spec fn rel_step(&self, post: Terminal, dx: int, dy: int) -> bool {
        match self.get_result() {
            Ok(p) => exists|mid: Terminal|
                #[trigger] self.get_step(mid) && mid.set_step(
                    post,
                    (p.0 + dx) as i32,
                    (p.1 + dy) as i32,
                ),
            Err(_) => self.get_step(post),
        }
    }

    /// `rel_fits`, for a move left by `n`.
    pub open spec fn left_fits(&self, n: int) -> bool {
        match self.get_result() {
            Ok(p) => i32::MIN <= p.0 - n <= i32::MAX,
            Err(_) => true,
        }
    }

    /// The outcome of a move left by `n`: the reported column minus `n`,
    /// same row.
    pub open spec fn left_result(&self, n: int) -> Result<(), RenderError> {
        match self.get_result() {
            Ok(p) => collapsed(self.set_result((p.0 - n) as i32, p.1)),
            Err(_) => Err(RenderError),
        }
    }

    /// How a move left by `n` carries the terminal to `post`.
    pub open spec fn left_step(&self, post: Terminal, n: int) -> bool {
        match self.get_result() {
            Ok(p) => exists|mid: Terminal|
                #[trigger] self.get_step(mid) && mid.set_step(post, (p.0 - n) as i32, p.1),
            Err(_) => self.get_step(post),
        }
    }

    /// `rel_fits`, for a move right by `n`.
    pub open spec fn right_fits(&self, n: int) -> bool {
        match self.get_result() {
            Ok(p) => i32::MIN <= p.0 + n <= i32::MAX,
            Err(_) => true,
        }
    }

    /// The outcome of a move right by `n`: the reported column plus `n`,
    /// same row.
    pub open spec fn right_result(&self, n: int) -> Result<(), RenderError> {
        match self.get_result() {
            Ok(p) => collapsed(self.set_result((p.0 + n) as i32, p.1)),
            Err(_) => Err(RenderError),
        }
    }

    /// How a move right by `n` carries the terminal to `post`.
    pub open spec fn right_step(&self, post: Terminal, n: int) -> bool {
        match self.get_result() {
            Ok(p) => exists|mid: Terminal|
                #[trigger] self.get_step(mid) && mid.set_step(post, (p.0 + n) as i32, p.1),
            Err(_) => self.get_step(post),
        }
    }

    /// `rel_fits`, for a move up by `n`.
    pub open spec fn up_fits(&self, n: int) -> bool {
        match self.get_result() {
            Ok(p) => i32::MIN <= p.1 - n <= i32::MAX,
            Err(_) => true,
        }
    }

    /// The outcome of a move up by `n`: same column, the reported row
    /// minus `n`.
    pub open spec fn up_result(&self, n: int) -> Result<(), RenderError> {
        match self.get_result() {
            Ok(p) => collapsed(self.set_result(p.0, (p.1 - n) as i32)),
            Err(_) => Err(RenderError),
        }
    }

    /// How a move up by `n` carries the terminal to `post`.
    pub open spec fn up_step(&self, post: Terminal, n: int) -> bool {
        match self.get_result() {
            Ok(p) => exists|mid: Terminal|
                #[trigger] self.get_step(mid) && mid.set_step(post, p.0, (p.1 - n) as i32),
            Err(_) => self.get_step(post),
        }
    }

    /// `rel_fits`, for a move down by `n`.
    pub open spec fn down_fits(&self, n: int) -> bool {
        match self.get_result() {
            Ok(p) => i32::MIN <= p.1 + n <= i32::MAX,
            Err(_) => true,
        }
    }

    /// The outcome of a move down by `n`: same column, the reported row
    /// plus `n`.
    pub open spec fn down_result(&self, n: int) -> Result<(), RenderError> {
        match self.get_result() {
            Ok(p) => collapsed(self.set_result(p.0, (p.1 + n) as i32)),
            Err(_) => Err(RenderError),
        }
    }

    /// How a move down by `n` carries the terminal to `post`.
    pub open spec fn down_step(&self, post: Terminal, n: int) -> bool {
        match self.get_result() {
            Ok(p) => exists|mid: Terminal|
                #[trigger] self.get_step(mid) && mid.set_step(post, p.0, (p.1 + n) as i32),
            Err(_) => self.get_step(post),
        }
    }
}

/// A command that, when rendered, makes the cursor go to the specified
/// coordinates.
///
/// The tuple has the form (x, y), where x and y correspond to columns and
/// rows respectively.
#[derive(Clone, Copy)]
pub struct Goto(pub i32, pub i32);

impl Goto {
    /// Move the cursor to the command's coordinates.
    pub fn render(&self, term: &mut Terminal) -> (r: Result<(), RenderError>)
        requires
            old(term).wf(),
        ensures
            final(term).wf(),
            r == collapsed(old(term).set_result(self.0, self.1)),
            old(term).set_step(*final(term), self.0, self.1),
    {
        match terminal::set_cursor_pos(term, self.0, self.1) {
            Ok(_) => Ok(()),
            Err(_) => Err(RenderError),
        }
    }
}

/// A command that, when rendered, moves the cursor by the specified
/// amount: it queries the current position, adds the delta, and moves the
/// cursor there.
///
/// The query and the move are two separate exchanges with the terminal: a
/// concurrent change of the cursor between them is observable. The library
/// does not serialize callers.
///
/// The tuple takes (x, y) deltas, where x and y correspond to columns and
/// rows respectively.
#[derive(Clone, Copy)]
pub struct Relative(pub i32, pub i32);

impl Relative {
    /// Move the cursor by the command's deltas.
    pub fn render(&self, term: &mut Terminal) -> (r: Result<(), RenderError>)
        requires
            old(term).wf(),
            old(term).rel_fits(self.0 as int, self.1 as int),
        ensures
            final(term).wf(),
            r == old(term).rel_result(self.0 as int, self.1 as int),
            old(term).rel_step(*final(term), self.0 as int, self.1 as int),
    {
        let got = terminal::get_cursor_pos(term);
        let (cx, cy) = match got {
            Ok(p) => p,
            Err(_) => {
                return Err(RenderError);
            },
        };
        let ghost mid = *term;
        let tx = cx as i64 + self.0 as i64;
        let ty = cy as i64 + self.1 as i64;
        let res = terminal::set_cursor_pos(term, tx as i32, ty as i32);
        proof {
            assert(old(term).get_step(mid));
            assert(mid.set_step(*term, tx as i32, ty as i32));
        }
        match res {
            Ok(_) => Ok(()),
            Err(_) => Err(RenderError),
        }
    }
}

/// A command that, when rendered, moves the cursor left by the given
/// amount: a relative move by (-n, 0).
#[derive(Clone, Copy)]
pub struct Left(pub i32);

impl Left {
    /// Move the cursor left by the command's amount.
    pub fn render(&self, term: &mut Terminal) -> (r: Result<(), RenderError>)
        requires
            old(term).wf(),
            self.0 > i32::MIN,
            old(term).left_fits(self.0 as int),
        ensures
            final(term).wf(),
            r == old(term).left_result(self.0 as int),
            old(term).left_step(*final(term), self.0 as int),
    {
        let r = Relative(-self.0, 0).render(term);
        proof {
            crate::laws::lemma_left_is_relative(*old(term), *term, self.0 as int);
        }
        r
    }
}

/// A command that, when rendered, moves the cursor right by the given
/// amount: a relative move by (n, 0).
#[derive(Clone, Copy)]
pub struct Right(pub i32);

impl Right {
    /// Move the cursor right by the command's amount.
    pub fn render(&self, term: &mut Terminal) -> (r: Result<(), RenderError>)
        requires
            old(term).wf(),
            old(term).right_fits(self.0 as int),
        ensures
            final(term).wf(),
            r == old(term).right_result(self.0 as int),
            old(term).right_step(*final(term), self.0 as int),
    {
        let r = Relative(self.0, 0).render(term);
        proof {
            crate::laws::lemma_right_is_relative(*old(term), *term, self.0 as int);
        }
        r
    }
}

/// A command that, when rendered, moves the cursor up by the given
/// amount: a relative move by (0, -n).
#[derive(Clone, Copy)]
pub struct Up(pub i32);

impl Up {
    /// Move the cursor up by the command's amount.
    pub fn render(&self, term: &mut Terminal) -> (r: Result<(), RenderError>)
        requires
            old(term).wf(),
            self.0 > i32::MIN,
            old(term).up_fits(self.0 as int),
        ensures
            final(term).wf(),
            r == old(term).up_result(self.0 as int),
            old(term).up_step(*final(term), self.0 as int),
    {
        let r = Relative(0, -self.0).render(term);
        proof {
            crate::laws::lemma_up_is_relative(*old(term), *term, self.0 as int);
        }
        r
    }
}

/// A command that, when rendered, moves the cursor down by the given
/// amount: a relative move by (0, n).
#[derive(Clone, Copy)]
pub struct Down(pub i32);

impl Down {
    /// Move the cursor down by the command's amount.
    pub fn render(&self, term: &mut Terminal) -> (r: Result<(), RenderError>)
        requires
            old(term).wf(),
            old(term).down_fits(self.0 as int),
        ensures
            final(term).wf(),
            r == old(term).down_result(self.0 as int),
            old(term).down_step(*final(term), self.0 as int),
    {
        let r = Relative(0, self.0).render(term);
        proof {
            crate::laws::lemma_down_is_relative(*old(term), *term, self.0 as int);
        }
        r
    }
}

/// A command that, when rendered, clears the entire terminal screen: every
/// cell becomes a space, and the cursor moves to the origin.
#[derive(Clone, Copy)]
pub struct Clear;

impl Clear {
    /// Clear the screen.
    pub fn render(&self, term: &mut Terminal) -> (r: Result<(), RenderError>)
        requires
            old(term).wf(),
        ensures
            final(term).wf(),
            r == collapsed(old(term).clear_result()),
            old(term).clear_step(*final(term)),
    {
        match terminal::clear(term) {
            Ok(_) => Ok(()),
            Err(_) => Err(RenderError),
        }
    }
}

} // verus!
