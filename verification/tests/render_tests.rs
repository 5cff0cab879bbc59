use circuitikz_grid::render::render;
use circuitikz_grid::scene::{ComponentType, PlacedComponent, Scene};

fn scene(width: usize, height: usize, comps: &[(usize, usize)]) -> Scene {
    let mut s = Scene::new(width, height).expect("valid dimensions");
    for &(x, y) in comps {
        s.add_component(PlacedComponent {
            kind: ComponentType::Nmos,
            x,
            y,
        });
    }
    s
}

#[test]
fn header_is_fixed_preamble() {
    let (header, _) = render(&scene(10, 10, &[]));
    assert_eq!(
        header,
        "\\documentclass{standalone}\n\\usepackage{tikz}\n\\usepackage{circuitikz}"
    );
}

#[test]
fn render_is_deterministic() {
    let a = scene(10, 10, &[(5, 5), (2, 3)]);
    let b = scene(10, 10, &[(5, 5), (2, 3)]);
    assert_eq!(render(&a), render(&b));
    assert_eq!(render(&a), render(&a));
}

#[test]
fn empty_scene_body_exact() {
    let (_, body) = render(&scene(10, 10, &[]));
    assert_eq!(
        body,
        "\\begin{circuitikz}\n    \\draw[step=1cm, gray, very thin] (0,0) grid (10,10);\n\n\\end{circuitikz}"
    );
}

#[test]
fn one_component_body_exact() {
    let (_, body) = render(&scene(10, 10, &[(5, 5)]));
    assert_eq!(
        body,
        "\\begin{circuitikz}\n    \\draw[step=1cm, gray, very thin] (0,0) grid (10,10);\n    \\draw (5,5) node[nmos] {};\n\n\\end{circuitikz}"
    );
}

#[test]
fn grid_parameters_match_dimensions() {
    let (_, body) = render(&scene(3, 7, &[]));
    assert!(body.contains("(0,0) grid (3,7)"));
    let (_, body) = render(&scene(120, 45, &[(1, 2)]));
    assert!(body.contains("(0,0) grid (120,45)"));
}

#[test]
fn grid_parameters_ignore_components() {
    let (_, empty_body) = render(&scene(10, 10, &[]));
    let (_, full_body) = render(&scene(10, 10, &[(1, 1), (2, 2), (3, 3)]));
    let grid_line = "    \\draw[step=1cm, gray, very thin] (0,0) grid (10,10);\n";
    assert!(empty_body.contains(grid_line));
    assert!(full_body.contains(grid_line));
}

#[test]
fn one_instruction_per_component_in_order() {
    let (_, body) = render(&scene(10, 10, &[(5, 5), (2, 3), (5, 5)]));
    assert_eq!(body.matches("node[nmos]").count(), 3);
    let first = body.find("\\draw (5,5)").unwrap();
    let second = body.find("\\draw (2,3)").unwrap();
    let third = body.rfind("\\draw (5,5)").unwrap();
    assert!(first < second && second < third);
}

#[test]
fn component_count_zero_and_many() {
    let (_, body) = render(&scene(4, 4, &[]));
    assert_eq!(body.matches("node[nmos]").count(), 0);
    let placements: Vec<(usize, usize)> = (0..17).map(|i| (i, i % 5)).collect();
    let (_, body) = render(&scene(20, 20, &placements));
    assert_eq!(body.matches("node[nmos]").count(), 17);
}

#[test]
fn mosfet_round_trip() {
    let (_, body) = render(&scene(10, 10, &[(5, 5)]));
    assert!(body.contains("(0,0) grid (10,10)"));
    assert!(body.contains("\\draw (5,5) node[nmos] {}"));
}

#[test]
fn scene_rejects_zero_dimensions() {
    assert!(Scene::new(0, 5).is_none());
    assert!(Scene::new(5, 0).is_none());
    assert!(Scene::new(0, 0).is_none());
    assert!(Scene::new(1, 1).is_some());
}

#[test]
fn component_kind_labels() {
    assert_eq!(ComponentType::Nmos.label(), "nmos");
    assert_eq!(ComponentType::Nmos.name(), "Nmos");
}
