//! The markup renderer: a pure function from a scene to document source text.
//! The header is a fixed preamble; the body opens a picture environment, draws
//! a unit-step background grid sized by the scene, then one draw instruction
//! per component in insertion order.

use vstd::prelude::*;
use vstd::string::*;
use crate::numeral::{dec_rep, push_dec};
use crate::scene::{ComponentType, PlacedComponent, Scene};

verus! {

/// The fixed document preamble; independent of scene contents.
pub open spec fn header_text() -> Seq<char> {
    "\\documentclass{standalone}\n\\usepackage{tikz}\n\\usepackage{circuitikz}"@
}

/// The background-grid instruction: inclusive grid lines from the origin to
/// (width, height), one-unit step, light gray, thin stroke.
pub open spec fn grid_instruction(width: nat, height: nat) -> Seq<char> {
    "    \\draw[step=1cm, gray, very thin] (0,0) grid ("@ + dec_rep(width) + ","@ + dec_rep(
        height,
    ) + ");\n"@
}

/// The draw instruction of one component: its kind's symbol template filled
/// with the component's coordinates.
pub open spec fn component_instruction(c: PlacedComponent) -> Seq<char> {
    match c.kind {
        ComponentType::Nmos => "    \\draw ("@ + dec_rep(c.x as nat) + ","@ + dec_rep(c.y as nat)
            + ") node[nmos] {};\n"@,
    }
}

/// The draw instructions of all components, concatenated in scene order.
pub open spec fn components_text(cs: Seq<PlacedComponent>) -> Seq<char>
    decreases cs.len(),
{
    if cs.len() == 0 {
        Seq::empty()
    } else {
        components_text(cs.drop_last()) + component_instruction(cs.last())
    }
}

/// The whole rendered body for a scene with the given dimensions and
/// components.
pub open spec fn body_text(width: nat, height: nat, cs: Seq<PlacedComponent>) -> Seq<char> {
    "\\begin{circuitikz}\n"@ + grid_instruction(width, height) + components_text(cs)
        + "\n\\end{circuitikz}"@
}

/// Rendering is deterministic: scenes with equal dimensions and equal
/// component lists render to the same header and body text, character for
/// character.
pub proof fn lemma_render_deterministic(a: Scene, b: Scene)
    requires
        a.width == b.width,
        a.height == b.height,
        a.components@ == b.components@,
    ensures
        body_text(a.width as nat, a.height as nat, a.components@) == body_text(
            b.width as nat,
            b.height as nat,
            b.components@,
        ),
{
}

/// Splitting at a separator character that occurs in neither left part: equal
/// concatenations have equal parts.
proof fn lemma_split_at_separator(
    x1: Seq<char>,
    y1: Seq<char>,
    x2: Seq<char>,
    y2: Seq<char>,
    sep: char,
)
    requires
        x1 + seq![sep] + y1 == x2 + seq![sep] + y2,
        forall|i: int| 0 <= i < x1.len() ==> x1[i] != sep,
        forall|i: int| 0 <= i < x2.len() ==> x2[i] != sep,
    ensures
        x1 == x2,
        y1 == y2,
{
    let s = x1 + seq![sep] + y1;
    let m1 = x1.len() as int;
    let m2 = x2.len() as int;
    if m1 < m2 {
        assert(s[m1] == sep);
        assert(s[m1] == x2[m1]);
        assert(false);
    }
    if m2 < m1 {
        assert(s[m2] == sep);
        assert(s[m2] == x1[m2]);
        assert(false);
    }
    assert(x1 =~= s.subrange(0, m1));
    assert(x2 =~= s.subrange(0, m1));
    assert(y1 =~= s.subrange(m1 + 1, s.len() as int));
    assert(y2 =~= s.subrange(m1 + 1, s.len() as int));
}

/// The grid instruction names the scene's dimensions exactly: two grid
/// instructions are equal precisely when their widths and heights are, and
/// the instruction does not depend on the component list at all.
pub proof fn lemma_grid_instruction_exact(w1: nat, h1: nat, w2: nat, h2: nat)
    ensures
        grid_instruction(w1, h1) == grid_instruction(w2, h2) <==> (w1 == w2 && h1 == h2),
{
    if grid_instruction(w1, h1) == grid_instruction(w2, h2) {
        let p = "    \\draw[step=1cm, gray, very thin] (0,0) grid ("@;
        let tail1 = dec_rep(w1) + ","@ + dec_rep(h1) + ");\n"@;
        let tail2 = dec_rep(w2) + ","@ + dec_rep(h2) + ");\n"@;
        assert(tail1 =~= (p + tail1).skip(p.len() as int));
        assert(tail2 =~= (p + tail2).skip(p.len() as int));
        assert(p + tail1 =~= grid_instruction(w1, h1));
        assert(p + tail2 =~= grid_instruction(w2, h2));
        reveal_strlit(",");
        reveal_strlit(");\n");
        reveal_strlit(";\n");
        assert(","@ =~= seq![',']);
        assert(");\n"@ =~= seq![')'] + ";\n"@);
        crate::numeral::lemma_dec_rep_digits(w1);
        crate::numeral::lemma_dec_rep_digits(w2);
        crate::numeral::lemma_dec_rep_digits(h1);
        crate::numeral::lemma_dec_rep_digits(h2);
        assert(tail1 =~= dec_rep(w1) + seq![','] + (dec_rep(h1) + ");\n"@));
        assert(tail2 =~= dec_rep(w2) + seq![','] + (dec_rep(h2) + ");\n"@));
        lemma_split_at_separator(
            dec_rep(w1),
            dec_rep(h1) + ");\n"@,
            dec_rep(w2),
            dec_rep(h2) + ");\n"@,
            ',',
        );
        crate::numeral::lemma_dec_rep_injective(w1, w2);
        assert(dec_rep(h1) + ");\n"@ =~= dec_rep(h1) + seq![')'] + ";\n"@);
        assert(dec_rep(h2) + ");\n"@ =~= dec_rep(h2) + seq![')'] + ";\n"@);
        lemma_split_at_separator(dec_rep(h1), ";\n"@, dec_rep(h2), ";\n"@, ')');
        crate::numeral::lemma_dec_rep_injective(h1, h2);
    }
}

/// One rendered instruction per component: the instruction list of a scene.
pub open spec fn placement_instructions(cs: Seq<PlacedComponent>) -> Seq<Seq<char>> {
    cs.map(|i: int, c: PlacedComponent| component_instruction(c))
}

/// The rendered component text consists of exactly one draw instruction per
/// component — as many instructions as components, the i-th instruction
/// belonging to the i-th component, concatenated in scene order.
pub proof fn lemma_placements_count_and_order(cs: Seq<PlacedComponent>)
    ensures
        placement_instructions(cs).len() == cs.len(),
        forall|i: int|
            0 <= i < cs.len() ==> placement_instructions(cs)[i] == component_instruction(cs[i]),
        components_text(cs) == placement_instructions(cs).flatten(),
    decreases cs.len(),
{
    if cs.len() == 0 {
        assert(placement_instructions(cs) =~= Seq::<Seq<char>>::empty());
        assert(components_text(cs) =~= placement_instructions(cs).flatten());
    } else {
        lemma_placements_count_and_order(cs.drop_last());
        assert(placement_instructions(cs.drop_last()) =~= placement_instructions(cs).drop_last());
        placement_instructions(cs).drop_last().lemma_flatten_push(
            component_instruction(cs.last()),
        );
        assert(placement_instructions(cs).drop_last().push(placement_instructions(cs).last())
            =~= placement_instructions(cs));
        assert(placement_instructions(cs).last() == component_instruction(cs.last()));
    }
}

/// Appends the draw instruction of `c` to `s`.
fn push_component(s: &mut String, c: &PlacedComponent)
    ensures
        final(s)@ == old(s)@ + component_instruction(*c),
{
    match c.kind {
        ComponentType::Nmos => {
            s.append("    \\draw (");
            push_dec(s, c.x);
            s.append(",");
            push_dec(s, c.y);
            s.append(") node[nmos] {};\n");
            proof {
                assert(s@ =~= old(s)@ + component_instruction(*c));
            }
        },
    }
}

/// Appending one component to a scene appends exactly its draw instruction to
/// the rendered component text.
pub proof fn lemma_components_text_snoc(cs: Seq<PlacedComponent>, i: int)
    requires
        0 <= i < cs.len(),
    ensures
        components_text(cs.take(i + 1)) == components_text(cs.take(i)) + component_instruction(
            cs[i],
        ),
{
    assert(cs.take(i + 1).drop_last() =~= cs.take(i));
    assert(cs.take(i + 1).last() == cs[i]);
}

/// Renders a scene into `(header, body)` text. Pure and total: it performs no
/// input/output and returns exactly the header and body given by `header_text`
/// and `body_text`.
pub fn render(scene: &Scene) -> (r: (String, String))
    ensures
        r.0@ == header_text(),
        r.1@ == body_text(scene.width as nat, scene.height as nat, scene.components@),
{
    let header = String::from_str(
        "\\documentclass{standalone}\n\\usepackage{tikz}\n\\usepackage{circuitikz}",
    );
    let mut body = String::from_str("\\begin{circuitikz}\n");
    body.append("    \\draw[step=1cm, gray, very thin] (0,0) grid (");
    push_dec(&mut body, scene.width);
    body.append(",");
    push_dec(&mut body, scene.height);
    body.append(");\n");
    proof {
        assert(body@ =~= "\\begin{circuitikz}\n"@ + grid_instruction(
            scene.width as nat,
            scene.height as nat,
        ));
        assert(scene.components@.take(0) =~= Seq::<PlacedComponent>::empty());
    }
    let n = scene.components.len();
    let mut i: usize = 0;
    while i < n
        invariant
            0 <= i <= n,
            n == scene.components@.len(),
            body@ == "\\begin{circuitikz}\n"@ + grid_instruction(
                scene.width as nat,
                scene.height as nat,
            ) + components_text(scene.components@.take(i as int)),
        decreases n - i,
    {
        push_component(&mut body, &scene.components[i]);
        proof {
            lemma_components_text_snoc(scene.components@, i as int);
            assert(body@ =~= "\\begin{circuitikz}\n"@ + grid_instruction(
                scene.width as nat,
                scene.height as nat,
            ) + components_text(scene.components@.take(i + 1)));
        }
        i = i + 1;
    }
    proof {
        assert(scene.components@.take(n as int) =~= scene.components@);
    }
    body.append("\n\\end{circuitikz}");
    proof {
        assert(body@ =~= body_text(scene.width as nat, scene.height as nat, scene.components@));
    }
    (header, body)
}

} // verus!
