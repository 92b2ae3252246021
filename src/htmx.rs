use vstd::prelude::*;

use vstd::string::StringExecFns;

use crate::tree::str_eq;

verus! {

/// The colours that a present cycles through.
#[derive(Clone, Copy, PartialEq, Eq, Structural, Debug)]
pub enum Color {
    Red,
    Blue,
    Purple,
}

pub open spec fn color_name(c: Color) -> Seq<char> {
    match c {
        Color::Red => seq!['r', 'e', 'd'],
        Color::Blue => seq!['b', 'l', 'u', 'e'],
        Color::Purple => seq!['p', 'u', 'r', 'p', 'l', 'e'],
    }
}

pub open spec fn color_named(s: Seq<char>) -> Option<Color> {
    if s == color_name(Color::Red) {
        Some(Color::Red)
    } else if s == color_name(Color::Blue) {
        Some(Color::Blue)
    } else if s == color_name(Color::Purple) {
        Some(Color::Purple)
    } else {
        None
    }
}

pub open spec fn next_color(c: Color) -> Color {
    match c {
        Color::Red => Color::Blue,
        Color::Blue => Color::Purple,
        Color::Purple => Color::Red,
    }
}

impl Color {
    /// The colour named `s` in lower case, if there is one.
    pub fn from(s: &str) -> (r: Option<Color>)
        ensures
            r == color_named(s@),
    {
        proof {
            reveal_strlit("red");
            reveal_strlit("blue");
            reveal_strlit("purple");
        }
        assert("red"@ =~= color_name(Color::Red));
        assert("blue"@ =~= color_name(Color::Blue));
        assert("purple"@ =~= color_name(Color::Purple));
        if str_eq(s, "red") {
            Some(Color::Red)
        } else if str_eq(s, "blue") {
            Some(Color::Blue)
        } else if str_eq(s, "purple") {
            Some(Color::Purple)
        } else {
            None
        }
    }

    /// The colour that follows: red, blue, purple, and red again.
    pub fn next(self) -> (r: Color)
        ensures
            r == next_color(self),
    {
        match self {
            Color::Red => Color::Blue,
            Color::Blue => Color::Purple,
            Color::Purple => Color::Red,
        }
    }

    /// The colour's name in lower case.
    pub fn name(self) -> (r: &'static str)
        ensures
            r@ == color_name(self),
    {
        proof {
            reveal_strlit("red");
            reveal_strlit("blue");
            reveal_strlit("purple");
        }
        match self {
            Color::Red => {
                assert("red"@ =~= color_name(Color::Red));
                "red"
            },
            Color::Blue => {
                assert("blue"@ =~= color_name(Color::Blue));
                "blue"
            },
            Color::Purple => {
                assert("purple"@ =~= color_name(Color::Purple));
                "purple"
            },
        }
    }
}

/// What stands for `c` inside an attribute value: `"`, `<` and `>` become entities.
pub open spec fn escape_char(c: char) -> Seq<char> {
    if c == '"' {
        seq!['&', 'q', 'u', 'o', 't', ';']
    } else if c == '<' {
        seq!['&', 'l', 't', ';']
    } else if c == '>' {
        seq!['&', 'g', 't', ';']
    } else {
        seq![c]
    }
}

pub open spec fn escaped(s: Seq<char>) -> Seq<char>
    decreases s.len(),
{
    if s.len() == 0 {
        Seq::empty()
    } else {
        escaped(s.drop_last()) + escape_char(s.last())
    }
}

/// `s` with `"`, `<` and `>` replaced by their entities, fit to stand in an attribute value.
pub fn escape_attribute(s: &str) -> (r: String)
    ensures
        r@ == escaped(s@),
{
    proof {
        reveal_strlit("&quot;");
        reveal_strlit("&lt;");
        reveal_strlit("&gt;");
    }
    assert("&quot;"@ =~= escape_char('"'));
    assert("&lt;"@ =~= escape_char('<'));
    assert("&gt;"@ =~= escape_char('>'));
    let n = s.unicode_len();
    let mut out = String::new();
    let mut i: usize = 0;
    assert(s@.take(0) =~= Seq::<char>::empty());
    while i < n
        invariant
            n == s@.len(),
            0 <= i <= n,
            out@ == escaped(s@.take(i as int)),
            "&quot;"@ == escape_char('"'),
            "&lt;"@ == escape_char('<'),
            "&gt;"@ == escape_char('>'),
        decreases n - i,
    {
        let c = s.get_char(i);
        assert(s@.take(i + 1).drop_last() =~= s@.take(i as int));
        if c == '"' {
            out.append("&quot;");
        } else if c == '<' {
            out.append("&lt;");
        } else if c == '>' {
            out.append("&gt;");
        } else {
            let one = s.substring_char(i, i + 1);
            assert(one@ =~= seq![c]);
            out.append(one);
        }
        i += 1;
    }
    assert(s@.take(n as int) =~= s@);
    out
}

/// The step of an ornament: in state `on` it shows the class ` on` and turns `off` next; in
/// state `off` it shows no class and turns `on` next. Other states have no step.
pub open spec fn ornament_step_of(state: Seq<char>) -> Option<(Seq<char>, Seq<char>)> {
    if state == seq!['o', 'n'] {
        Some((seq![' ', 'o', 'n'], seq!['o', 'f', 'f']))
    } else if state == seq!['o', 'f', 'f'] {
        Some((Seq::empty(), seq!['o', 'n']))
    } else {
        None
    }
}

/// The class to show for an ornament in `state`, and its next state.
pub fn ornament_step(state: &str) -> (r: Option<(&'static str, &'static str)>)
    ensures
        match r {
            Some((class, next)) => ornament_step_of(state@) == Some((class@, next@)),
            None => ornament_step_of(state@) is None,
        },
{
    proof {
        reveal_strlit("on");
        reveal_strlit("off");
        reveal_strlit(" on");
        reveal_strlit("");
    }
    assert("on"@ =~= seq!['o', 'n']);
    assert("off"@ =~= seq!['o', 'f', 'f']);
    assert(" on"@ =~= seq![' ', 'o', 'n']);
    assert(""@ =~= Seq::<char>::empty());
    if str_eq(state, "on") {
        Some((" on", "off"))
    } else if str_eq(state, "off") {
        Some(("", "on"))
    } else {
        None
    }
}

} // verus!
