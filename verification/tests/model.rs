use arkhe::compose_handovers;
use arkhe::DoubleMapper;
use arkhe::Handover;
use arkhe::Hypergraph;
use arkhe::Node;
use arkhe::PreservationProtocol;
use arkhe::Score;
use arkhe::StateSpace;
use arkhe::ToDecimalMapper;

#[test]
fn node_new_stores_state_and_coherence() {
    let n = Node::new(String::from("n1"), "R", 7i64);
    assert_eq!(n.id, "n1");
    assert_eq!(n.state_space, "R");
    assert_eq!(n.current_state, 7);
    assert_eq!(n.local_coherence, Score::one());
    assert_eq!(n.local_coherence.thousandths, 1000);
}

#[test]
fn node_new_accepts_empty_id() {
    let n = Node::new(String::new(), "", String::from("payload"));
    assert_eq!(n.id, "");
    assert_eq!(n.state_space, "");
    assert_eq!(n.current_state, "payload");
    assert_eq!(n.local_coherence, Score::one());
}

#[test]
fn handover_new_stores_metadata() {
    let h = Handover::<i64, i64, DoubleMapper>::new(
        String::from("double"),
        PreservationProtocol::Conservative,
        DoubleMapper,
    );
    assert_eq!(h.id, "double");
    assert_eq!(h.protocol, PreservationProtocol::Conservative);
    assert_eq!(h.fidelity, Score::one());
}

#[test]
fn execute_applies_the_mapper() {
    let n = Node::new(String::from("n1"), "R", 21i64);
    let h = Handover::<i64, i64, DoubleMapper>::new(
        String::from("double"),
        PreservationProtocol::Conservative,
        DoubleMapper,
    );
    assert_eq!(h.execute(&n), 42);
    assert_eq!(n.current_state, 21);
}

#[test]
fn execute_renders_decimal() {
    let h = Handover::<i64, String, ToDecimalMapper>::new(
        String::from("stringify"),
        PreservationProtocol::Conservative,
        ToDecimalMapper,
    );
    assert_eq!(h.execute(&Node::new(String::from("a"), "Z", 0i64)), "0");
    assert_eq!(h.execute(&Node::new(String::from("b"), "Z", -7i64)), "-7");
    assert_eq!(h.execute(&Node::new(String::from("c"), "Z", 9000i64)), "9000");
}

#[test]
fn compose_applies_second_after_first() {
    let f = Handover::<i64, i64, DoubleMapper>::new(
        String::from("h1"),
        PreservationProtocol::Conservative,
        DoubleMapper,
    );
    let g = Handover::<i64, String, ToDecimalMapper>::new(
        String::from("h2"),
        PreservationProtocol::Creative,
        ToDecimalMapper,
    );
    let fg = compose_handovers(f, g);
    let x = Node::new(String::from("x"), "R", 6i64);
    assert_eq!(fg.execute(&x), "12");
}

#[test]
fn compose_id_is_concatenation_with_delimiter() {
    let f = Handover::<i64, i64, DoubleMapper>::new(
        String::from("double"),
        PreservationProtocol::Conservative,
        DoubleMapper,
    );
    let g = Handover::<i64, String, ToDecimalMapper>::new(
        String::from("stringify"),
        PreservationProtocol::Conservative,
        ToDecimalMapper,
    );
    let fg = compose_handovers(f, g);
    assert_eq!(fg.id, "double_stringify");
}

#[test]
fn compose_protocol_is_always_transmutative() {
    let f = Handover::<i64, i64, DoubleMapper>::new(
        String::from("h1"),
        PreservationProtocol::Conservative,
        DoubleMapper,
    );
    let g = Handover::<i64, i64, DoubleMapper>::new(
        String::from("h2"),
        PreservationProtocol::Conservative,
        DoubleMapper,
    );
    let fg = compose_handovers(f, g);
    assert_eq!(fg.protocol, PreservationProtocol::Transmutative);
    assert_eq!(fg.fidelity, Score::one());
}

#[test]
fn compose_is_associative_on_execution() {
    let x = Node::new(String::from("x"), "R", 5i64);

    let f1 = Handover::<i64, i64, DoubleMapper>::new(
        String::from("f"),
        PreservationProtocol::Conservative,
        DoubleMapper,
    );
    let g1 = Handover::<i64, i64, DoubleMapper>::new(
        String::from("g"),
        PreservationProtocol::Creative,
        DoubleMapper,
    );
    let h1 = Handover::<i64, String, ToDecimalMapper>::new(
        String::from("h"),
        PreservationProtocol::Destructive,
        ToDecimalMapper,
    );
    let left = compose_handovers(compose_handovers(f1, g1), h1);

    let f2 = Handover::<i64, i64, DoubleMapper>::new(
        String::from("f"),
        PreservationProtocol::Conservative,
        DoubleMapper,
    );
    let g2 = Handover::<i64, i64, DoubleMapper>::new(
        String::from("g"),
        PreservationProtocol::Creative,
        DoubleMapper,
    );
    let h2 = Handover::<i64, String, ToDecimalMapper>::new(
        String::from("h"),
        PreservationProtocol::Destructive,
        ToDecimalMapper,
    );
    let right = compose_handovers(f2, compose_handovers(g2, h2));

    assert_eq!(left.id, "f_g_h");
    assert_eq!(right.id, "f_g_h");
    assert_eq!(left.execute(&x), "20");
    assert_eq!(right.execute(&x), "20");
}

#[test]
fn state_space_is_a_plain_record() {
    let s = StateSpace {
        dimension: 3,
        topology: String::from("torus"),
        algebra: String::from("ring"),
    };
    assert_eq!(s.dimension, 3);
    assert_eq!(s.topology, "torus");
    assert_eq!(s.algebra, "ring");
}

#[test]
fn hypergraph_new_is_empty() {
    let g: Hypergraph<i64> = Hypergraph::new("demo");
    assert_eq!(g.name, "demo");
    assert_eq!(g.nodes.len(), 0);
}

#[test]
fn add_node_keeps_distinct_ids() {
    let mut g: Hypergraph<i64> = Hypergraph::new("demo");
    g.add_node(Node::new(String::from("a"), "R", 1));
    g.add_node(Node::new(String::from("b"), "R", 2));
    assert_eq!(g.nodes.len(), 2);
    let a = g.nodes.iter().find(|n| n.id == "a").unwrap();
    let b = g.nodes.iter().find(|n| n.id == "b").unwrap();
    assert_eq!(a.current_state, 1);
    assert_eq!(b.current_state, 2);
}

#[test]
fn add_node_with_reused_id_overwrites() {
    let mut g: Hypergraph<i64> = Hypergraph::new("demo");
    g.add_node(Node::new(String::from("a"), "R", 1));
    g.add_node(Node::new(String::from("a"), "R", 2));
    assert_eq!(g.nodes.len(), 1);
    let a = g.nodes.iter().find(|n| n.id == "a").unwrap();
    assert_eq!(a.current_state, 2);
}

#[test]
fn end_to_end_demo_scenario() {
    let mut demo: Hypergraph<i64> = Hypergraph::new("demo");
    demo.add_node(Node::new(String::from("n1"), "R", 5i64));

    let h1 = Handover::<i64, i64, DoubleMapper>::new(
        String::from("double"),
        PreservationProtocol::Conservative,
        DoubleMapper,
    );
    let h2 = Handover::<i64, String, ToDecimalMapper>::new(
        String::from("stringify"),
        PreservationProtocol::Conservative,
        ToDecimalMapper,
    );
    let h3 = compose_handovers(h1, h2);

    let n1 = demo.nodes.iter().find(|n| n.id == "n1").unwrap();
    assert_eq!(h3.execute(n1), "10");
}

#[test]
fn double_mapper_handles_extreme_values() {
    let h = Handover::<i64, i64, DoubleMapper>::new(
        String::from("double"),
        PreservationProtocol::Conservative,
        DoubleMapper,
    );
    let top = Node::new(String::from("t"), "Z", 4611686018427387903i64);
    assert_eq!(h.execute(&top), 9223372036854775806i64);
    let bottom = Node::new(String::from("u"), "Z", -4611686018427387904i64);
    assert_eq!(h.execute(&bottom), -9223372036854775808i64);
}
