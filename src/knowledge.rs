//! The static knowledge graph and the strategy inference over it.
use vstd::prelude::*;
use vstd::string::StringExecFns;

verus! {

/// Property read as the hardware fidelity-loss metric.
pub const FIDELITY_METRIC_KEY: &'static str = "eplg";

/// Metrics are carried as integers in billionths.
pub const METRIC_SCALE: i64 = 1_000_000_000;

/// Metric assumed when the property is present but does not read as a number (0.01).
pub const DEFAULT_METRIC: i64 = 10_000_000;

/// Below this metric (1e-3) deep circuits are chosen.
pub const DEEP_BELOW: i64 = 1_000_000;

/// Below this metric (5e-3), and not below `DEEP_BELOW`, balanced circuits are chosen.
pub const BALANCED_BELOW: i64 = 5_000_000;

/// A property value: its text as written in the definition, and, when it
/// reads as a number (a number or a numeric string), that number in billionths.
#[derive(Debug, Clone)]
pub struct PropertyValue {
    pub rendered: String,
    pub billionths: Option<i64>,
}

#[derive(Debug, Clone)]
pub struct Property {
    pub key: String,
    pub value: PropertyValue,
}

#[derive(Debug, Clone)]
pub struct Node {
    pub id: String,
    pub node_type: String,
    pub label: String,
    pub properties: Vec<Property>,
}

#[derive(Debug, Clone)]
pub struct Edge {
    pub source: String,
    pub target: String,
    pub relationship: String,
    pub properties: Vec<Property>,
}

/// A knowledge definition as read: nodes and edges in their written order.
#[derive(Debug)]
pub struct KnowledgeGraph {
    pub nodes: Vec<Node>,
    pub edges: Vec<Edge>,
}

/// The node stored under `id`: the last one written with that identifier.
pub open spec fn node_lookup(nodes: Seq<Node>, id: Seq<char>) -> Option<Node>
    decreases nodes.len(),
{
    if nodes.len() == 0 {
        None
    } else if nodes.last().id@ == id {
        Some(nodes.last())
    } else {
        node_lookup(nodes.drop_last(), id)
    }
}

/// The value stored under `key`: the last one written with that key.
pub open spec fn prop_lookup(props: Seq<Property>, key: Seq<char>) -> Option<PropertyValue>
    decreases props.len(),
{
    if props.len() == 0 {
        None
    } else if props.last().key@ == key {
        Some(props.last().value)
    } else {
        prop_lookup(props.drop_last(), key)
    }
}

/// The edges leaving `id`, in their written order.
pub open spec fn edges_from(edges: Seq<Edge>, id: Seq<char>) -> Seq<Edge>
    decreases edges.len(),
{
    if edges.len() == 0 {
        Seq::empty()
    } else if edges.last().source@ == id {
        edges_from(edges.drop_last(), id).push(edges.last())
    } else {
        edges_from(edges.drop_last(), id)
    }
}

/// Circuit depth chosen for a fidelity-loss metric (in billionths).
pub open spec fn depth_for(metric: int) -> usize {
    if metric < DEEP_BELOW {
        4
    } else if metric < BALANCED_BELOW {
        2
    } else {
        1
    }
}

/// Strategy label chosen for a fidelity-loss metric (in billionths).
pub open spec fn label_for(metric: int) -> Seq<char> {
    if metric < DEEP_BELOW {
        "Deep / High-Fidelity"@
    } else if metric < BALANCED_BELOW {
        "Balanced"@
    } else {
        "Shallow / Conservative"@
    }
}

/// The metric a property value stands for, with the default when it is not numeric.
pub open spec fn metric_of(v: PropertyValue) -> int {
    match v.billionths {
        Some(m) => m as int,
        None => DEFAULT_METRIC as int,
    }
}

/// The strategy inferred for `target`: from its metric when the node and the
/// metric are present, the standard strategy of depth 1 otherwise.
pub open spec fn inferred_strategy(nodes: Seq<Node>, target: Seq<char>) -> (Seq<char>, usize) {
    match node_lookup(nodes, target) {
        Some(n) => match prop_lookup(n.properties@, FIDELITY_METRIC_KEY@) {
            Some(v) => (label_for(metric_of(v)), depth_for(metric_of(v))),
            None => ("Standard"@, 1),
        },
        None => ("Standard"@, 1),
    }
}

/// One line of a description for an optional property.
pub open spec fn property_line(title: Seq<char>, v: Option<PropertyValue>) -> Seq<char> {
    match v {
        Some(p) => title + p.rendered@ + "\n"@,
        None => Seq::empty(),
    }
}

/// The context lines for `edges`: one per edge whose target node is known.
pub open spec fn edge_lines(nodes: Seq<Node>, edges: Seq<Edge>) -> Seq<char>
    decreases edges.len(),
{
    if edges.len() == 0 {
        Seq::empty()
    } else {
        edge_lines(nodes, edges.drop_last()) + match node_lookup(nodes, edges.last().target@) {
            Some(t) => "    --["@ + edges.last().relationship@ + "]--> "@ + t.label@ + " ("@
                + t.node_type@ + ")\n"@,
            None => Seq::empty(),
        }
    }
}

/// The human-readable summary of node `id`.
pub open spec fn description(nodes: Seq<Node>, edges: Seq<Edge>, id: Seq<char>) -> Seq<char> {
    match node_lookup(nodes, id) {
        Some(n) => "Algorithm: "@ + n.label@ + " ("@ + n.node_type@ + ")\n"@ + property_line(
            "  Description: "@,
            prop_lookup(n.properties@, "description"@),
        ) + property_line("  Speedup: "@, prop_lookup(n.properties@, "speedup"@)) + if edges_from(
            edges,
            id,
        ).len() > 0 {
            "  Context:\n"@ + edge_lines(nodes, edges_from(edges, id))
        } else {
            Seq::empty()
        },
        None => "Algorithm "@ + id + " not found in Knowledge Graph."@,
    }
}

fn find_node<'a>(nodes: &'a Vec<Node>, id: &String) -> (r: Option<&'a Node>)
    ensures
        match r {
            Some(n) => node_lookup(nodes@, id@) == Some(*n),
            None => node_lookup(nodes@, id@) is None,
        },
{
    let mut i: usize = nodes.len();
    assert(nodes@.subrange(0, i as int) == nodes@);
    while i > 0
        invariant
            i <= nodes@.len(),
            node_lookup(nodes@, id@) == node_lookup(nodes@.subrange(0, i as int), id@),
        decreases i,
    {
        assert(nodes@.subrange(0, i as int).drop_last() == nodes@.subrange(0, i - 1));
        if nodes[i - 1].id == *id {
            return Some(&nodes[i - 1]);
        }
        i = i - 1;
    }
    None
}

fn find_property<'a>(props: &'a Vec<Property>, key: &String) -> (r: Option<&'a PropertyValue>)
    ensures
        match r {
            Some(v) => prop_lookup(props@, key@) == Some(*v),
            None => prop_lookup(props@, key@) is None,
        },
{
    let mut i: usize = props.len();
    assert(props@.subrange(0, i as int) == props@);
    while i > 0
        invariant
            i <= props@.len(),
            prop_lookup(props@, key@) == prop_lookup(props@.subrange(0, i as int), key@),
        decreases i,
    {
        assert(props@.subrange(0, i as int).drop_last() == props@.subrange(0, i - 1));
        if props[i - 1].key == *key {
            return Some(&props[i - 1].value);
        }
        i = i - 1;
    }
    None
}

fn append_property_line(desc: &mut String, title: &str, v: Option<&PropertyValue>)
    ensures
        final(desc)@ == old(desc)@ + property_line(
            title@,
            match v {
                Some(p) => Some(*p),
                None => None,
            },
        ),
{
    if let Some(p) = v {
        let ghost before = desc@;
        desc.append(title);
        desc.append(p.rendered.as_str());
        desc.append("\n");
        assert(desc@ =~= before + (title@ + p.rendered@ + "\n"@));
    } else {
        assert(desc@ =~= desc@ + Seq::<char>::empty());
    }
}

/// Picks the strategy label and circuit depth for a fidelity-loss metric
/// given in billionths.
pub fn select_strategy(metric: i64) -> (r: (String, usize))
    ensures
        r.0@ == label_for(metric as int),
        r.1 == depth_for(metric as int),
{
    if metric < DEEP_BELOW {
        ("Deep / High-Fidelity".to_owned(), 4)
    } else if metric < BALANCED_BELOW {
        ("Balanced".to_owned(), 2)
    } else {
        ("Shallow / Conservative".to_owned(), 1)
    }
}

/// The knowledge base: nodes by identifier and edges by source, read-only once built.
pub struct QuantumKnowledge {
    nodes: Vec<Node>,
    edges: Vec<Edge>,
}

impl QuantumKnowledge {
    /// The nodes in written order; the node of an identifier is the last one written.
    pub closed spec fn spec_nodes(&self) -> Seq<Node> {
        self.nodes@
    }

    /// The edges in written order.
    pub closed spec fn spec_edges(&self) -> Seq<Edge> {
        self.edges@
    }

    /// The identifiers with a node, each mapped to its node.
    pub open spec fn node_map(&self) -> Map<Seq<char>, Node> {
        Map::new(
            |id: Seq<char>| node_lookup(self.spec_nodes(), id) is Some,
            |id: Seq<char>| node_lookup(self.spec_nodes(), id)->Some_0,
        )
    }

    /// Builds the knowledge base from a definition.
    pub fn new(graph: KnowledgeGraph) -> (r: Self)
        ensures
            r.spec_nodes() == graph.nodes@,
            r.spec_edges() == graph.edges@,
    {
        QuantumKnowledge { nodes: graph.nodes, edges: graph.edges }
    }

    pub fn get_node(&self, id: &str) -> (r: Option<&Node>)
        ensures
            match r {
                Some(n) => self.node_map().contains_key(id@) && self.node_map()[id@] == *n,
                None => !self.node_map().contains_key(id@),
            },
    {
        find_node(&self.nodes, &id.to_owned())
    }

    /// The edges leaving `id`, in written order.
    pub fn get_related(&self, id: &str) -> (r: Vec<&Edge>)
        ensures
            r@.len() == edges_from(self.spec_edges(), id@).len(),
            forall|i: int| 0 <= i < r@.len() ==> *r@[i] == edges_from(self.spec_edges(), id@)[i],
    {
        let key = id.to_owned();
        let mut r: Vec<&Edge> = Vec::new();
        let mut i: usize = 0;
        while i < self.edges.len()
            invariant
                i <= self.edges@.len(),
                key@ == id@,
                r@.len() == edges_from(self.edges@.subrange(0, i as int), id@).len(),
                forall|k: int|
                    0 <= k < r@.len() ==> *r@[k] == edges_from(
                        self.edges@.subrange(0, i as int),
                        id@,
                    )[k],
            decreases self.edges@.len() - i,
        {
            assert(self.edges@.subrange(0, i + 1).drop_last() == self.edges@.subrange(0, i as int));
            if self.edges[i].source == key {
                r.push(&self.edges[i]);
            }
            i = i + 1;
        }
        assert(self.edges@.subrange(0, self.edges@.len() as int) == self.edges@);
        r
    }

    /// The properties of node `id`.
    pub fn get_device_specs(&self, id: &str) -> (r: Option<&Vec<Property>>)
        ensures
            match r {
                Some(p) => self.node_map().contains_key(id@) && self.node_map()[id@].properties
                    == *p,
                None => !self.node_map().contains_key(id@),
            },
    {
        match find_node(&self.nodes, &id.to_owned()) {
            Some(n) => Some(&n.properties),
            None => None,
        }
    }

    /// Strategy label and circuit depth for the hardware node `target_hw`,
    /// from its fidelity-loss metric.
    pub fn infer_optimal_strategy(&self, target_hw: &str) -> (r: (String, usize))
        ensures
            (r.0@, r.1) == inferred_strategy(self.spec_nodes(), target_hw@),
    {
        if let Some(node) = find_node(&self.nodes, &target_hw.to_owned()) {
            if let Some(v) = find_property(&node.properties, &FIDELITY_METRIC_KEY.to_owned()) {
                let metric: i64 = match v.billionths {
                    Some(m) => m,
                    None => DEFAULT_METRIC,
                };
                return select_strategy(metric);
            }
        }
        ("Standard".to_owned(), 1)
    }
    /// A human-readable summary of node `algo_id`: its label, category and
    /// selected properties, then one line per outgoing edge to a known node.
    pub fn describe_algorithm(&self, algo_id: &str) -> (r: String)
        ensures
            r@ == description(self.spec_nodes(), self.spec_edges(), algo_id@),
    {
        let id = algo_id.to_owned();
        match find_node(&self.nodes, &id) {
            Some(node) => {
                let mut desc = "Algorithm: ".to_owned();
                desc.append(node.label.as_str());
                desc.append(" (");
                desc.append(node.node_type.as_str());
                desc.append(")\n");
                append_property_line(
                    &mut desc,
                    "  Description: ",
                    find_property(&node.properties, &"description".to_owned()),
                );
                append_property_line(
                    &mut desc,
                    "  Speedup: ",
                    find_property(&node.properties, &"speedup".to_owned()),
                );
                let related = self.get_related(algo_id);
                let ghost es = edges_from(self.spec_edges(), algo_id@);
                let ghost nodes = self.spec_nodes();
                if related.len() > 0 {
                    let ghost head = desc@;
                    desc.append("  Context:\n");
                    let ghost prefix = desc@;
                    assert(es.subrange(0, 0) =~= Seq::<Edge>::empty());
                    assert(prefix =~= prefix + edge_lines(nodes, es.subrange(0, 0)));
                    let mut i: usize = 0;
                    while i < related.len()
                        invariant
                            i <= related@.len(),
                            related@.len() == es.len(),
                            forall|k: int| 0 <= k < related@.len() ==> *related@[k] == es[k],
                            nodes == self.spec_nodes(),
                            desc@ == prefix + edge_lines(nodes, es.subrange(0, i as int)),
                        decreases related@.len() - i,
                    {
                        let e = related[i];
                        let ghost before = desc@;
                        assert(es.subrange(0, i + 1).drop_last() == es.subrange(0, i as int));
                        assert(es.subrange(0, i + 1).last() == es[i as int]);
                        match find_node(&self.nodes, &e.target) {
                            Some(t) => {
                                desc.append("    --[");
                                desc.append(e.relationship.as_str());
                                desc.append("]--> ");
                                desc.append(t.label.as_str());
                                desc.append(" (");
                                desc.append(t.node_type.as_str());
                                desc.append(")\n");
                                assert(desc@ =~= prefix + edge_lines(
                                    nodes,
                                    es.subrange(0, i + 1),
                                ));
                            },
                            None => {
                                assert(desc@ =~= prefix + edge_lines(
                                    nodes,
                                    es.subrange(0, i + 1),
                                ));
                            },
                        }
                        i = i + 1;
                    }
                    assert(es.subrange(0, es.len() as int) == es);
                    assert(desc@ =~= head + ("  Context:\n"@ + edge_lines(nodes, es)));
                } else {
                    assert(desc@ =~= desc@ + Seq::<char>::empty());
                }
                desc
            },
            None => {
                let mut desc = "Algorithm ".to_owned();
                desc.append(algo_id);
                desc.append(" not found in Knowledge Graph.");
                desc
            },
        }
    }
}

} // verus!
