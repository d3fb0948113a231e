//! Lowering of whole ontologies and of documents.

use vstd::prelude::*;
use crate::error::outcome;
use crate::error::HornedError;
use crate::model::annotation::Annotation;
use crate::model::annotation::AnnotationSet;
use crate::model::component::AnnotatedComponent;
use crate::model::component::AnnotatedComponentView;
use crate::model::component::Component;
use crate::model::component::ComponentView;
use crate::model::component::OntologyID;
use crate::model::component::OntologyIDView;
use crate::model::iri::IRI;
use crate::ontology::collected;
use crate::ontology::Ontology;
use crate::ontology::OntologyView;
use crate::parse_tree::ParseNode;
use crate::parse_tree::Rule;
use crate::prefix::bind;
use crate::prefix::reserved_name;
use crate::prefix::PrefixMap;
use crate::prefix::PrefixMapView;
use crate::reader::basic::prefix_name;
use crate::reader::context::Context;

verus! {

/// The three runs of nodes inside an ontology node.
#[derive(Clone, Copy, Debug, PartialEq, Eq, Hash, Structural)]
pub enum Block {
    /// The imports.
    Imports,
    /// The annotations on the ontology itself.
    Annotations,
    /// The declarations and axioms, among which rules and description-graph
    /// axioms may stand.
    Members,
}

/// A component without annotations.
pub open spec fn bare(component: ComponentView) -> AnnotatedComponentView {
    AnnotatedComponentView { component, ann: Set::empty() }
}

/// Whether the lowering passes over a member of an ontology: it does where
/// the node below the member is a rule or a description-graph axiom.
pub open spec fn is_dropped(member: ParseNode) -> bool {
    member.children@.len() > 0 && (member.children@[0].rule == Rule::Rule
        || member.children@[0].rule == Rule::DGAxiom)
}

/// What one node of a block gives to the ontology: a component, or nothing
/// where the lowering passes over it.
pub open spec fn lowered_item(block: Block, node: ParseNode, m: PrefixMapView) -> Result<
    Option<AnnotatedComponentView>,
    HornedError,
> {
    match block {
        Block::Imports => match node.spec_expect(Rule::Import) {
            Err(e) => Err(e),
            Ok(_) => match node.spec_child(0) {
                Err(e) => Err(e),
                Ok(target) => match IRI::lowered(target, m) {
                    Err(e) => Err(e),
                    Ok(iri) => Ok(Some(bare(ComponentView::Import(iri)))),
                },
            },
        },
        Block::Annotations => match Annotation::lowered(node, m) {
            Err(e) => Err(e),
            Ok(a) => Ok(Some(bare(ComponentView::OntologyAnnotation(a)))),
        },
        Block::Members => match node.spec_child(0) {
            Err(e) => Err(e),
            Ok(inner) => match inner.rule {
                Rule::Rule | Rule::DGAxiom => Ok(None),
                Rule::Axiom => match AnnotatedComponent::lowered(inner, m) {
                    Err(e) => Err(e),
                    Ok(a) => Ok(Some(a)),
                },
                _ => Err(HornedError::unexpected(inner.rule, inner.span)),
            },
        },
    }
}

/// What the nodes of a block give to the ontology, in their order, or the
/// first error among them.
pub open spec fn lowered_items(block: Block, nodes: Seq<ParseNode>, m: PrefixMapView) -> Result<
    Seq<AnnotatedComponentView>,
    HornedError,
>
    decreases nodes.len(),
{
    if nodes.len() == 0 {
        Ok(Seq::empty())
    } else {
        match lowered_items(block, nodes.drop_last(), m) {
            Err(e) => Err(e),
            Ok(before) => match lowered_item(block, nodes.last(), m) {
                Err(e) => Err(e),
                Ok(Some(a)) => Ok(before.push(a)),
                Ok(None) => Ok(before),
            },
        }
    }
}

/// An error among the first nodes of a block is the error of the block.
pub proof fn lemma_items_error_stays(
    block: Block,
    nodes: Seq<ParseNode>,
    k: int,
    m: PrefixMapView,
    e: HornedError,
)
    requires
        0 <= k <= nodes.len(),
        lowered_items(block, nodes.take(k), m) == Err::<Seq<AnnotatedComponentView>, HornedError>(
            e,
        ),
    ensures
        lowered_items(block, nodes, m) == Err::<Seq<AnnotatedComponentView>, HornedError>(e),
    decreases nodes.len() - k,
{
    if k == nodes.len() {
        assert(nodes.take(k) =~= nodes);
    } else {
        assert(nodes.take(k + 1).drop_last() =~= nodes.take(k));
        lemma_items_error_stays(block, nodes, k + 1, m, e);
    }
}

/// The members among `nodes` over which the lowering does not pass, in
/// their order.
pub open spec fn kept_members(nodes: Seq<ParseNode>) -> Seq<ParseNode>
    decreases nodes.len(),
{
    if nodes.len() == 0 {
        nodes
    } else if is_dropped(nodes.last()) {
        kept_members(nodes.drop_last())
    } else {
        kept_members(nodes.drop_last()).push(nodes.last())
    }
}

/// Rules and description-graph axioms leave no trace: a run of members gives
/// what it gives without them.
pub proof fn lemma_dropped_members(nodes: Seq<ParseNode>, m: PrefixMapView)
    ensures
        lowered_items(Block::Members, kept_members(nodes), m) == lowered_items(
            Block::Members,
            nodes,
            m,
        ),
    decreases nodes.len(),
{
    if nodes.len() > 0 {
        lemma_dropped_members(nodes.drop_last(), m);
        if !is_dropped(nodes.last()) {
            let kept = kept_members(nodes.drop_last());
            assert(kept.push(nodes.last()).drop_last() =~= kept);
        }
    }
}

/// The components of an ontology with one more component added last.
pub proof fn lemma_collected_push(s: Seq<AnnotatedComponentView>, a: AnnotatedComponentView)
    ensures
        collected(s.push(a)) == crate::ontology::inserted(collected(s), a),
{
    assert(s.push(a).drop_last() =~= s);
}

/// The number of children that make the identifier of an ontology: none, the
/// ontology IRI, or the ontology IRI and the version IRI.
pub open spec fn header_len(node: ParseNode) -> int {
    if node.children@.len() > 0 && node.children@[0].rule == Rule::OntologyIRI {
        if node.children@.len() > 1 && node.children@[1].rule == Rule::VersionIRI {
            2
        } else {
            1
        }
    } else {
        0
    }
}

/// The IRI below the node of an ontology IRI or of a version IRI.
pub open spec fn lowered_header_iri(holder: ParseNode, m: PrefixMapView) -> Result<
    Seq<char>,
    HornedError,
> {
    match holder.spec_child(0) {
        Err(e) => Err(e),
        Ok(inner) => IRI::lowered(inner, m),
    }
}

/// Lowers the IRI below the node of an ontology IRI or of a version IRI.
pub fn header_iri_from_pair(holder: &ParseNode, ctx: &mut Context) -> (r: Result<IRI, HornedError>)
    ensures
        outcome(r) == lowered_header_iri(*holder, old(ctx).mapping@),
        old(ctx).grows_to(*final(ctx)),
{
    let inner = holder.child(0)?;
    IRI::from_pair(inner, ctx)
}

impl OntologyID {
    /// The identifier that an ontology node gives. An ontology IRI is the
    /// first child if there is one, and a version IRI can only follow an
    /// ontology IRI; the blocks must follow the identifier.
    pub open spec fn lowered(node: ParseNode, m: PrefixMapView) -> Result<
        OntologyIDView,
        HornedError,
    > {
        match node.spec_child(0) {
            Err(e) => Err(e),
            Ok(first) => if first.rule == Rule::OntologyIRI {
                match lowered_header_iri(first, m) {
                    Err(e) => Err(e),
                    Ok(iri) => match node.spec_child(1) {
                        Err(e) => Err(e),
                        Ok(second) => if second.rule == Rule::VersionIRI {
                            match lowered_header_iri(second, m) {
                                Err(e) => Err(e),
                                Ok(viri) => match node.spec_child(2) {
                                    Err(e) => Err(e),
                                    Ok(_) => Ok(
                                        OntologyIDView { iri: Some(iri), viri: Some(viri) },
                                    ),
                                },
                            }
                        } else {
                            Ok(OntologyIDView { iri: Some(iri), viri: None })
                        },
                    },
                }
            } else {
                Ok(OntologyIDView { iri: None, viri: None })
            },
        }
    }

    /// Lowers the identifier that an ontology node gives.
    pub fn from_pair(node: &ParseNode, ctx: &mut Context) -> (r: Result<OntologyID, HornedError>)
        ensures
            outcome(r) == OntologyID::lowered(*node, old(ctx).mapping@),
            r is Ok ==> header_len(*node) < node.children@.len(),
            old(ctx).grows_to(*final(ctx)),
    {
        let first = node.child(0)?;
        if first.rule == Rule::OntologyIRI {
            let iri = header_iri_from_pair(first, ctx)?;
            let second = node.child(1)?;
            if second.rule == Rule::VersionIRI {
                let viri = header_iri_from_pair(second, ctx)?;
                let _ = node.child(2)?;
                Ok(OntologyID { iri: Some(iri), viri: Some(viri) })
            } else {
                Ok(OntologyID { iri: Some(iri), viri: None })
            }
        } else {
            Ok(OntologyID { iri: None, viri: None })
        }
    }
}

/// Lowers one node of a block.
pub fn item_from_pair(block: Block, node: &ParseNode, ctx: &mut Context) -> (r: Result<
    Option<AnnotatedComponent>,
    HornedError,
>)
    ensures
        match r {
            Ok(Some(a)) => lowered_item(block, *node, old(ctx).mapping@) == Ok::<
                Option<AnnotatedComponentView>,
                HornedError,
            >(Some(a@)),
            Ok(None) => lowered_item(block, *node, old(ctx).mapping@) == Ok::<
                Option<AnnotatedComponentView>,
                HornedError,
            >(None),
            Err(e) => lowered_item(block, *node, old(ctx).mapping@) == Err::<
                Option<AnnotatedComponentView>,
                HornedError,
            >(e),
        },
        old(ctx).grows_to(*final(ctx)),
{
    match block {
        Block::Imports => {
            node.expect(Rule::Import)?;
            let target = node.child(0)?;
            let iri = IRI::from_pair(target, ctx)?;
            Ok(Some(AnnotatedComponent { component: Component::Import(iri), ann: AnnotationSet::new() }))
        },
        Block::Annotations => {
            let a = Annotation::from_pair(node, ctx)?;
            Ok(
                Some(
                    AnnotatedComponent {
                        component: Component::OntologyAnnotation(a),
                        ann: AnnotationSet::new(),
                    },
                ),
            )
        },
        Block::Members => {
            let inner = node.child(0)?;
            match inner.rule {
                Rule::Rule | Rule::DGAxiom => Ok(None),
                Rule::Axiom => {
                    let a = AnnotatedComponent::from_pair(inner, ctx)?;
                    Ok(Some(a))
                },
                _ => Err(
                    HornedError::ParseError {
                        positives: Some(inner.rule),
                        negatives: None,
                        span: inner.span,
                    },
                ),
            }
        },
    }
}

/// Lowers the children of a block node and adds what they give to `o`,
/// which holds the components of `before`.
fn items_from_pair(
    block: Block,
    holder: &ParseNode,
    o: &mut Ontology,
    ctx: &mut Context,
    Ghost(before): Ghost<Seq<AnnotatedComponentView>>,
) -> (r: Result<(), HornedError>)
    requires
        old(o)@ == collected(before),
    ensures
        match r {
            Ok(_) => lowered_items(block, holder.children@, old(ctx).mapping@) is Ok && final(o)@
                == collected(
                before + lowered_items(block, holder.children@, old(ctx).mapping@)->Ok_0,
            ),
            Err(e) => lowered_items(block, holder.children@, old(ctx).mapping@) == Err::<
                Seq<AnnotatedComponentView>,
                HornedError,
            >(e),
        },
        final(o).store() == old(o).store(),
        old(ctx).grows_to(*final(ctx)),
{
    let ghost m = old(ctx).mapping@;
    let ghost nodes = holder.children@;
    let ghost mut part = Seq::<AnnotatedComponentView>::empty();
    let mut i: usize = 0;
    proof {
        assert(nodes.take(0) =~= Seq::<ParseNode>::empty());
        assert(before + part =~= before);
    }
    while i < holder.children.len()
        invariant
            0 <= i <= holder.children.len(),
            nodes == holder.children@,
            m == old(ctx).mapping@,
            old(ctx).grows_to(*ctx),
            lowered_items(block, nodes.take(i as int), m) == Ok::<
                Seq<AnnotatedComponentView>,
                HornedError,
            >(part),
            o@ == collected(before + part),
            o.store() == old(o).store(),
        decreases holder.children.len() - i,
    {
        proof {
            assert(nodes.take(i + 1).drop_last() =~= nodes.take(i as int));
            assert(nodes.take(i + 1).last() == nodes[i as int]);
        }
        match item_from_pair(block, &holder.children[i], ctx) {
            Ok(Some(a)) => {
                proof {
                    lemma_collected_push(before + part, a@);
                    assert((before + part).push(a@) =~= before + part.push(a@));
                    part = part.push(a@);
                }
                o.insert(a);
            },
            Ok(None) => {},
            Err(e) => {
                proof {
                    lemma_items_error_stays(block, nodes, i + 1, m, e);
                }
                return Err(e);
            },
        }
        i += 1;
    }
    proof {
        assert(nodes.take(nodes.len() as int) =~= nodes);
    }
    Ok(())
}

/// What the three blocks of an ontology node give, in their order: the
/// blocks are the children at the positions `h`, `h + 1` and `h + 2`.
pub open spec fn lowered_blocks(node: ParseNode, h: int, m: PrefixMapView) -> Result<
    Seq<AnnotatedComponentView>,
    HornedError,
> {
    match node.spec_child(h) {
        Err(e) => Err(e),
        Ok(imports) => match lowered_items(Block::Imports, imports.children@, m) {
            Err(e) => Err(e),
            Ok(first) => match node.spec_child(h + 1) {
                Err(e) => Err(e),
                Ok(annotations) => match lowered_items(
                    Block::Annotations,
                    annotations.children@,
                    m,
                ) {
                    Err(e) => Err(e),
                    Ok(second) => match node.spec_child(h + 2) {
                        Err(e) => Err(e),
                        Ok(members) => match lowered_items(
                            Block::Members,
                            members.children@,
                            m,
                        ) {
                            Err(e) => Err(e),
                            Ok(third) => Ok(first + second + third),
                        },
                    },
                },
            },
        }
    }
}

/// Lowers the three blocks of an ontology node and adds what they give to
/// `o`, which holds the components of `before`.
fn blocks_from_pair(
    node: &ParseNode,
    h: usize,
    o: &mut Ontology,
    ctx: &mut Context,
    Ghost(before): Ghost<Seq<AnnotatedComponentView>>,
) -> (r: Result<(), HornedError>)
    requires
        old(o)@ == collected(before),
        h <= 2,
    ensures
        match r {
            Ok(_) => lowered_blocks(*node, h as int, old(ctx).mapping@) is Ok && final(o)@
                == collected(before + lowered_blocks(*node, h as int, old(ctx).mapping@)->Ok_0),
            Err(e) => lowered_blocks(*node, h as int, old(ctx).mapping@) == Err::<
                Seq<AnnotatedComponentView>,
                HornedError,
            >(e),
        },
        final(o).store() == old(o).store(),
        old(ctx).grows_to(*final(ctx)),
{
    let ghost m = old(ctx).mapping@;
    let imports = node.child(h)?;
    items_from_pair(Block::Imports, imports, o, ctx, Ghost(before))?;
    let ghost first = lowered_items(Block::Imports, imports.children@, m)->Ok_0;
    let annotations = node.child(h + 1)?;
    items_from_pair(Block::Annotations, annotations, o, ctx, Ghost(before + first))?;
    let ghost second = lowered_items(Block::Annotations, annotations.children@, m)->Ok_0;
    let members = node.child(h + 2)?;
    items_from_pair(Block::Members, members, o, ctx, Ghost(before + first + second))?;
    proof {
        let third = lowered_items(Block::Members, members.children@, m)->Ok_0;
        assert(before + first + second + third =~= before + (first + second + third));
    }
    Ok(())
}

impl Ontology {
    /// The components that an ontology node gives, its rule taken for
    /// granted, in the order in which the lowering adds them: the identifier,
    /// then what the block of imports, the block of annotations and the block
    /// of members give. The three blocks are the three children after the
    /// identifier.
    pub open spec fn lowered_components(node: ParseNode, m: PrefixMapView) -> Result<
        Seq<AnnotatedComponentView>,
        HornedError,
    > {
        match OntologyID::lowered(node, m) {
            Err(e) => Err(e),
            Ok(id) => match lowered_blocks(node, header_len(node), m) {
                Err(e) => Err(e),
                Ok(rest) => Ok(seq![bare(ComponentView::OntologyID(id))] + rest),
            },
        }
    }

    /// What an ontology node stands for, its rule taken for granted: the
    /// ontology that holds the components that the node gives.
    pub open spec fn lowered_unchecked(node: ParseNode, m: PrefixMapView) -> Result<
        OntologyView,
        HornedError,
    > {
        match Ontology::lowered_components(node, m) {
            Err(e) => Err(e),
            Ok(s) => Ok(collected(s)),
        }
    }

    /// What an ontology node stands for.
    pub open spec fn lowered(node: ParseNode, m: PrefixMapView) -> Result<
        OntologyView,
        HornedError,
    > {
        match node.spec_expect(Rule::Ontology) {
            Err(e) => Err(e),
            Ok(_) => Ontology::lowered_unchecked(node, m),
        }
    }

    /// Lowers an ontology node without looking at its rule. The ontology has
    /// a store of its own, which holds nothing: the IRIs of the ontology are
    /// interned in the store of the context.
    pub fn from_pair_unchecked(node: &ParseNode, ctx: &mut Context) -> (r: Result<
        Ontology,
        HornedError,
    >)
        ensures
            outcome(r) == Ontology::lowered_unchecked(*node, old(ctx).mapping@),
            r is Ok ==> r->Ok_0.store() == Set::<Seq<char>>::empty(),
            old(ctx).grows_to(*final(ctx)),
    {
        let id = OntologyID::from_pair(node, ctx)?;
        let h: usize = if node.children[0].rule == Rule::OntologyIRI {
            if node.children[1].rule == Rule::VersionIRI {
                2
            } else {
                1
            }
        } else {
            0
        };
        let mut o = Ontology::new();
        let ghost head = seq![bare(ComponentView::OntologyID(id@))];
        proof {
            lemma_collected_push(Seq::empty(), bare(ComponentView::OntologyID(id@)));
            assert(Seq::<AnnotatedComponentView>::empty().push(bare(ComponentView::OntologyID(id@)))
                =~= head);
        }
        o.insert(AnnotatedComponent { component: Component::OntologyID(id), ann: AnnotationSet::new() });
        blocks_from_pair(node, h, &mut o, ctx, Ghost(head))?;
        Ok(o)
    }

    /// Lowers an ontology node.
    pub fn from_pair(node: &ParseNode, ctx: &mut Context) -> (r: Result<Ontology, HornedError>)
        ensures
            outcome(r) == Ontology::lowered(*node, old(ctx).mapping@),
            r is Ok ==> r->Ok_0.store() == Set::<Seq<char>>::empty(),
            old(ctx).grows_to(*final(ctx)),
    {
        node.expect(Rule::Ontology)?;
        Ontology::from_pair_unchecked(node, ctx)
    }
}

/// Two ontology nodes that differ only in the rules and description-graph
/// axioms among their members stand for the same ontology. The members are
/// the children of the last of the three blocks, which here is the last
/// child of either node.
pub proof fn lemma_dropped_members_leave_no_trace(a: ParseNode, b: ParseNode, m: PrefixMapView)
    requires
        a.rule == b.rule,
        a.span == b.span,
        a.children@.len() == b.children@.len(),
        a.children@.len() == header_len(a) + 3,
        forall|i: int| 0 <= i < a.children@.len() - 1 ==> a.children@[i] == b.children@[i],
        kept_members(a.children@.last().children@) == kept_members(b.children@.last().children@),
    ensures
        Ontology::lowered(a, m) == Ontology::lowered(b, m),
{
    lemma_dropped_members(a.children@.last().children@, m);
    lemma_dropped_members(b.children@.last().children@, m);
    assert(a.children@[0] == b.children@[0]);
    assert(a.children@[1] == b.children@[1]);
    assert(header_len(a) == header_len(b));
    assert(OntologyID::lowered(a, m) == OntologyID::lowered(b, m));
}

/// The prefix map after one prefix declaration. The declaration has the node
/// of the prefix name as its first child and the node of a full IRI as its
/// second; the name is the text below the namespace part, and where that is
/// missing the declaration sets the default. The reserved name `_` is an
/// error at the place of the name.
pub open spec fn declared_one(decl: ParseNode, pm: PrefixMapView) -> Result<
    PrefixMapView,
    HornedError,
> {
    match decl.spec_child(0) {
        Err(e) => Err(e),
        Ok(name) => match decl.spec_child(1) {
            Err(e) => Err(e),
            Ok(full) => match full.spec_child(0) {
                Err(e) => Err(e),
                Ok(iri) => match name.spec_child(0) {
                    Err(e) => Err(e),
                    Ok(namespace) => match prefix_name(namespace) {
                        Some(p) => if p == reserved_name() {
                            Err(HornedError::malformed(namespace.children@[0].span))
                        } else {
                            Ok(
                                PrefixMapView {
                                    default: pm.default,
                                    bindings: bind(pm.bindings, p, iri.text@),
                                },
                            )
                        },
                        None => Ok(
                            PrefixMapView { default: Some(iri.text@), bindings: pm.bindings },
                        ),
                    },
                },
            },
        },
    }
}

/// The position of the first child from `from` on that is no prefix
/// declaration; the number of children where every one is.
pub open spec fn declarations_end(children: Seq<ParseNode>, from: int) -> int
    decreases children.len() - from,
{
    if 0 <= from < children.len() && children[from].rule == Rule::PrefixDeclaration {
        declarations_end(children, from + 1)
    } else {
        from
    }
}

/// The prefix map that the first `k` children make, each of them a prefix
/// declaration, starting without bindings and without default.
pub open spec fn declared(children: Seq<ParseNode>, k: int) -> Result<PrefixMapView, HornedError>
    decreases k,
{
    if k <= 0 {
        Ok(PrefixMapView { default: None, bindings: Seq::empty() })
    } else {
        match declared(children, k - 1) {
            Err(e) => Err(e),
            Ok(pm) => declared_one(children[k - 1], pm),
        }
    }
}

/// The end of the prefix declarations is at or after the place from which
/// it is sought, and at most the number of children.
pub proof fn lemma_declarations_end(children: Seq<ParseNode>, from: int)
    requires
        0 <= from <= children.len(),
    ensures
        from <= declarations_end(children, from) <= children.len(),
    decreases children.len() - from,
{
    if from < children.len() && children[from].rule == Rule::PrefixDeclaration {
        lemma_declarations_end(children, from + 1);
    }
}

/// An error among the first prefix declarations is the error of all of them.
pub proof fn lemma_declared_error_stays(children: Seq<ParseNode>, k: int, n: int, e: HornedError)
    requires
        0 <= k <= n,
        declared(children, k) == Err::<PrefixMapView, HornedError>(e),
    ensures
        declared(children, n) == Err::<PrefixMapView, HornedError>(e),
    decreases n - k,
{
    if k < n {
        lemma_declared_error_stays(children, k, n - 1, e);
    }
}

/// What a document node stands for: the ontology that follows its prefix
/// declarations, lowered against the prefix map that they make, with that
/// map.
pub open spec fn lowered_document(node: ParseNode) -> Result<
    (OntologyView, PrefixMapView),
    HornedError,
> {
    match node.spec_expect(Rule::OntologyDocument) {
        Err(e) => Err(e),
        Ok(_) => match declared(node.children@, declarations_end(node.children@, 0)) {
            Err(e) => Err(e),
            Ok(pm) => match node.spec_child(declarations_end(node.children@, 0)) {
                Err(e) => Err(e),
                Ok(body) => match Ontology::lowered(body, pm) {
                    Err(e) => Err(e),
                    Ok(o) => Ok((o, pm)),
                },
            },
        },
    }
}

/// Applies one prefix declaration to `prefixes`.
pub fn declare_from_pair(decl: &ParseNode, prefixes: &mut PrefixMap) -> (r: Result<(), HornedError>)
    ensures
        match r {
            Ok(_) => declared_one(*decl, old(prefixes)@) == Ok::<PrefixMapView, HornedError>(
                final(prefixes)@,
            ),
            Err(e) => declared_one(*decl, old(prefixes)@) == Err::<PrefixMapView, HornedError>(e),
        },
{
    let name = decl.child(0)?;
    let full = decl.child(1)?;
    let iri = full.child(0)?;
    let namespace = name.child(0)?;
    if namespace.children.len() > 0 {
        let p = &namespace.children[0];
        match prefixes.add_prefix(p.text.as_str(), iri.text.as_str()) {
            Ok(_) => Ok(()),
            Err(_) => Err(
                HornedError::ParseError { positives: None, negatives: None, span: p.span },
            ),
        }
    } else {
        prefixes.set_default(iri.text.as_str());
        Ok(())
    }
}

/// Lowers a document node. The prefix map of the context plays no part: the
/// ontology is lowered against the map that the document declares.
pub fn document_from_pair(node: &ParseNode, ctx: &mut Context) -> (r: Result<
    (Ontology, PrefixMap),
    HornedError,
>)
    ensures
        match r {
            Ok((o, pm)) => lowered_document(*node) == Ok::<
                (OntologyView, PrefixMapView),
                HornedError,
            >((o@, pm@)),
            Err(e) => lowered_document(*node) == Err::<(OntologyView, PrefixMapView), HornedError>(
                e,
            ),
        },
        old(ctx).grows_to(*final(ctx)),
{
    node.expect(Rule::OntologyDocument)?;
    let mut prefixes = PrefixMap::new();
    let mut k: usize = 0;
    while k < node.children.len() && node.children[k].rule == Rule::PrefixDeclaration
        invariant
            0 <= k <= node.children.len(),
            node.rule == Rule::OntologyDocument,
            declarations_end(node.children@, 0) == declarations_end(node.children@, k as int),
            declared(node.children@, k as int) == Ok::<PrefixMapView, HornedError>(prefixes@),
        decreases node.children.len() - k,
    {
        match declare_from_pair(&node.children[k], &mut prefixes) {
            Ok(_) => {},
            Err(e) => {
                proof {
                    lemma_declarations_end(node.children@, k + 1);
                    lemma_declared_error_stays(
                        node.children@,
                        k + 1,
                        declarations_end(node.children@, 0),
                        e,
                    );
                }
                return Err(e);
            },
        }
        k += 1;
    }
    let body = node.child(k)?;
    std::mem::swap(&mut ctx.mapping, &mut prefixes);
    let r = Ontology::from_pair(body, ctx);
    std::mem::swap(&mut ctx.mapping, &mut prefixes);
    match r {
        Ok(o) => Ok((o, prefixes)),
        Err(e) => Err(e),
    }
}

} // verus!
