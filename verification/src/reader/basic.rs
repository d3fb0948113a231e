//! Lowering of tokens, IRIs, named entities, individuals and literals.

use vstd::prelude::*;
use crate::error::outcome;
use crate::error::HornedError;
use crate::model::entity::AnnotationProperty;
use crate::model::entity::AnonymousIndividual;
use crate::model::entity::Class;
use crate::model::entity::DataProperty;
use crate::model::entity::Datatype;
use crate::model::entity::Individual;
use crate::model::entity::IndividualView;
use crate::model::entity::NamedIndividual;
use crate::model::entity::ObjectProperty;
use crate::model::expression::Literal;
use crate::model::expression::LiteralView;
use crate::model::iri::IRI;
use crate::parse_tree::remaining;
use crate::parse_tree::ParseNode;
use crate::parse_tree::Rule;
use crate::prefix::ExpandError;
use crate::prefix::PrefixMapView;
use crate::reader::collect::collect;
use crate::reader::collect::lemma_collect_all;
use crate::reader::collect::lemma_collect_error;
use crate::reader::collect::lemma_collect_value;
use crate::reader::context::Context;
use crate::text::decimal_of;
use crate::text::language_of;
use crate::text::quoted_payload;
use crate::text::read_decimal;
use crate::text::read_language;
use crate::text::read_quoted;

verus! {

/// What a quoted-string node stands for, its rule taken for granted: the
/// text between the quotes, with the two escape sequences resolved.
pub open spec fn lowered_quoted_string_unchecked(node: ParseNode) -> Result<
    Seq<char>,
    HornedError,
> {
    match quoted_payload(node.text@) {
        Some(s) => Ok(s),
        None => Err(HornedError::malformed(node.span)),
    }
}

/// What a quoted-string node stands for.
pub open spec fn lowered_quoted_string(node: ParseNode) -> Result<Seq<char>, HornedError> {
    match node.spec_expect(Rule::QuotedString) {
        Err(e) => Err(e),
        Ok(_) => lowered_quoted_string_unchecked(node),
    }
}

/// Lowers a quoted-string node without looking at its rule.
pub fn quoted_string_from_pair_unchecked(node: &ParseNode) -> (r: Result<String, HornedError>)
    ensures
        outcome(r) == lowered_quoted_string_unchecked(*node),
{
    match read_quoted(node.text.as_str()) {
        Some(s) => Ok(s),
        None => Err(HornedError::ParseError { positives: None, negatives: None, span: node.span }),
    }
}

/// Lowers a quoted-string node.
pub fn quoted_string_from_pair(node: &ParseNode) -> (r: Result<String, HornedError>)
    ensures
        outcome(r) == lowered_quoted_string(*node),
{
    node.expect(Rule::QuotedString)?;
    quoted_string_from_pair_unchecked(node)
}

/// What a non-negative-integer node stands for, its rule taken for granted:
/// the number that its digits write, which must fit in 32 bits.
pub open spec fn lowered_non_negative_integer_unchecked(node: ParseNode) -> Result<
    u32,
    HornedError,
> {
    match decimal_of(node.text@) {
        Some(n) => Ok(n),
        None => Err(HornedError::malformed(node.span)),
    }
}

/// What a non-negative-integer node stands for.
pub open spec fn lowered_non_negative_integer(node: ParseNode) -> Result<u32, HornedError> {
    match node.spec_expect(Rule::NonNegativeInteger) {
        Err(e) => Err(e),
        Ok(_) => lowered_non_negative_integer_unchecked(node),
    }
}

/// Lowers a non-negative-integer node without looking at its rule.
pub fn non_negative_integer_from_pair_unchecked(node: &ParseNode) -> (r: Result<u32, HornedError>)
    ensures
        r == lowered_non_negative_integer_unchecked(*node),
{
    match read_decimal(node.text.as_str()) {
        Some(n) => Ok(n),
        None => Err(HornedError::ParseError { positives: None, negatives: None, span: node.span }),
    }
}

/// Lowers a non-negative-integer node.
pub fn non_negative_integer_from_pair(node: &ParseNode) -> (r: Result<u32, HornedError>)
    ensures
        r == lowered_non_negative_integer(*node),
{
    node.expect(Rule::NonNegativeInteger)?;
    non_negative_integer_from_pair_unchecked(node)
}

/// What a language-tag node stands for: its text without the leading `@` and
/// without the white space around what is left.
pub open spec fn lowered_language_tag(node: ParseNode) -> Result<Seq<char>, HornedError> {
    match language_of(node.text@) {
        Some(lang) => Ok(lang),
        None => Err(HornedError::malformed(node.span)),
    }
}

/// Lowers a language-tag node.
pub fn language_tag_from_pair(node: &ParseNode) -> (r: Result<String, HornedError>)
    ensures
        outcome(r) == lowered_language_tag(*node),
{
    match read_language(node.text.as_str()) {
        Some(s) => Ok(s),
        None => Err(HornedError::ParseError { positives: None, negatives: None, span: node.span }),
    }
}

/// What a store holds after the lowering of one IRI: the string of the IRI
/// besides what it held, or just what it held where the lowering failed.
pub open spec fn gained(store: Set<Seq<char>>, r: Result<Seq<char>, HornedError>) -> Set<
    Seq<char>,
> {
    match r {
        Ok(s) => store.insert(s),
        Err(_) => store,
    }
}

/// The prefix name of a prefixed name, if it has one: the text of the first
/// node below the node of its namespace part.
pub open spec fn prefix_name(namespace: ParseNode) -> Option<Seq<char>> {
    if namespace.children@.len() > 0 {
        Some(namespace.children@[0].text@)
    } else {
        None
    }
}

impl IRI {
    /// What an abbreviated-IRI node stands for: the expansion of its prefixed
    /// name, whose first child is the namespace part and whose second child
    /// is the local part.
    pub open spec fn lowered_abbreviated(node: ParseNode, m: PrefixMapView) -> Result<
        Seq<char>,
        HornedError,
    > {
        match node.spec_child(0) {
            Err(e) => Err(e),
            Ok(pname) => match pname.spec_child(0) {
                Err(e) => Err(e),
                Ok(namespace) => match pname.spec_child(1) {
                    Err(e) => Err(e),
                    Ok(local) => match m.expansion(prefix_name(namespace), local.text@) {
                        Ok(s) => Ok(s),
                        Err(ExpandError::UndefinedPrefix) => Err(
                            HornedError::UndefinedPrefix(node.span),
                        ),
                        Err(ExpandError::MissingDefault) => Err(
                            HornedError::MissingDefault(node.span),
                        ),
                    },
                },
            },
        }
    }

    /// What the node of an IRI stands for, its rule taken for granted: a full
    /// IRI stands for the text between its brackets, an abbreviated IRI for
    /// its expansion.
    pub open spec fn lowered_unchecked(node: ParseNode, m: PrefixMapView) -> Result<
        Seq<char>,
        HornedError,
    > {
        match node.spec_child(0) {
            Err(e) => Err(e),
            Ok(inner) => match inner.rule {
                Rule::AbbreviatedIRI => IRI::lowered_abbreviated(inner, m),
                Rule::FullIRI => match inner.spec_child(0) {
                    Err(e) => Err(e),
                    Ok(body) => Ok(body.text@),
                },
                _ => Err(HornedError::unexpected(inner.rule, inner.span)),
            },
        }
    }

    /// What the node of an IRI stands for.
    pub open spec fn lowered(node: ParseNode, m: PrefixMapView) -> Result<Seq<char>, HornedError> {
        match node.spec_expect(Rule::IRI) {
            Err(e) => Err(e),
            Ok(_) => IRI::lowered_unchecked(node, m),
        }
    }

    /// Lowers an abbreviated-IRI node.
    pub fn from_abbreviated(node: &ParseNode, ctx: &mut Context) -> (r: Result<IRI, HornedError>)
        ensures
            outcome(r) == IRI::lowered_abbreviated(*node, old(ctx).mapping@),
            old(ctx).grows_to(*final(ctx)),
            final(ctx).build@ == gained(old(ctx).build@, outcome(r)),
    {
        let pname = node.child(0)?;
        let namespace = pname.child(0)?;
        let local = pname.child(1)?;
        let expanded = if namespace.children.len() > 0 {
            ctx.mapping.expand(Some(namespace.children[0].text.as_str()), local.text.as_str())
        } else {
            ctx.mapping.expand(None, local.text.as_str())
        };
        match expanded {
            Ok(s) => Ok(ctx.build.iri(s.as_str())),
            Err(ExpandError::UndefinedPrefix) => Err(HornedError::UndefinedPrefix(node.span)),
            Err(ExpandError::MissingDefault) => Err(HornedError::MissingDefault(node.span)),
        }
    }

    /// Lowers the node of an IRI without looking at its rule.
    pub fn from_pair_unchecked(node: &ParseNode, ctx: &mut Context) -> (r: Result<
        IRI,
        HornedError,
    >)
        ensures
            outcome(r) == IRI::lowered_unchecked(*node, old(ctx).mapping@),
            old(ctx).grows_to(*final(ctx)),
            final(ctx).build@ == gained(old(ctx).build@, outcome(r)),
    {
        let inner = node.child(0)?;
        match inner.rule {
            Rule::AbbreviatedIRI => IRI::from_abbreviated(inner, ctx),
            Rule::FullIRI => {
                let body = inner.child(0)?;
                Ok(ctx.build.iri(body.text.as_str()))
            },
            _ => Err(
                HornedError::ParseError {
                    positives: Some(inner.rule),
                    negatives: None,
                    span: inner.span,
                },
            ),
        }
    }

    /// Lowers the node of an IRI.
    pub fn from_pair(node: &ParseNode, ctx: &mut Context) -> (r: Result<IRI, HornedError>)
        ensures
            outcome(r) == IRI::lowered(*node, old(ctx).mapping@),
            old(ctx).grows_to(*final(ctx)),
            final(ctx).build@ == gained(old(ctx).build@, outcome(r)),
    {
        node.expect(Rule::IRI)?;
        IRI::from_pair_unchecked(node, ctx)
    }
}

impl Class {
    /// What a class node stands for, its rule taken for granted: the IRI
    /// that its only child stands for.
    pub open spec fn lowered_unchecked(
        node: ParseNode,
        m: PrefixMapView,
    ) -> Result<Seq<char>, HornedError> {
        match node.spec_child(0) {
            Err(e) => Err(e),
            Ok(inner) => match IRI::lowered(inner, m) {
                Err(e) => Err(e),
                Ok(iri) => Ok(iri),
            },
        }
    }

    /// Lowers a class node without looking at its rule.
    pub fn from_pair_unchecked(
        node: &ParseNode,
        ctx: &mut Context,
    ) -> (r: Result<Class, HornedError>)
        ensures
            outcome(r) == Class::lowered_unchecked(*node, old(ctx).mapping@),
            old(ctx).grows_to(*final(ctx)),
            final(ctx).build@ == gained(old(ctx).build@, outcome(r)),
    {
        let inner = node.child(0)?;
        let iri = IRI::from_pair(inner, ctx)?;
        Ok(Class(iri))
    }

    /// What a class node stands for.
    pub open spec fn lowered(node: ParseNode, m: PrefixMapView) -> Result<Seq<char>, HornedError> {
        match node.spec_expect(Rule::Class) {
            Err(e) => Err(e),
            Ok(_) => Class::lowered_unchecked(node, m),
        }
    }

    /// Lowers a class node.
    pub fn from_pair(node: &ParseNode, ctx: &mut Context) -> (r: Result<Class, HornedError>)
        ensures
            outcome(r) == Class::lowered(*node, old(ctx).mapping@),
            old(ctx).grows_to(*final(ctx)),
            final(ctx).build@ == gained(old(ctx).build@, outcome(r)),
    {
        node.expect(Rule::Class)?;
        Class::from_pair_unchecked(node, ctx)
    }
}

impl Datatype {
    /// What a datatype node stands for, its rule taken for granted: the IRI
    /// that its only child stands for.
    pub open spec fn lowered_unchecked(
        node: ParseNode,
        m: PrefixMapView,
    ) -> Result<Seq<char>, HornedError> {
        match node.spec_child(0) {
            Err(e) => Err(e),
            Ok(inner) => match IRI::lowered(inner, m) {
                Err(e) => Err(e),
                Ok(iri) => Ok(iri),
            },
        }
    }

    /// Lowers a datatype node without looking at its rule.
    pub fn from_pair_unchecked(
        node: &ParseNode,
        ctx: &mut Context,
    ) -> (r: Result<Datatype, HornedError>)
        ensures
            outcome(r) == Datatype::lowered_unchecked(*node, old(ctx).mapping@),
            old(ctx).grows_to(*final(ctx)),
            final(ctx).build@ == gained(old(ctx).build@, outcome(r)),
    {
        let inner = node.child(0)?;
        let iri = IRI::from_pair(inner, ctx)?;
        Ok(Datatype(iri))
    }

    /// What a datatype node stands for.
    pub open spec fn lowered(node: ParseNode, m: PrefixMapView) -> Result<Seq<char>, HornedError> {
        match node.spec_expect(Rule::Datatype) {
            Err(e) => Err(e),
            Ok(_) => Datatype::lowered_unchecked(node, m),
        }
    }

    /// Lowers a datatype node.
    pub fn from_pair(node: &ParseNode, ctx: &mut Context) -> (r: Result<Datatype, HornedError>)
        ensures
            outcome(r) == Datatype::lowered(*node, old(ctx).mapping@),
            old(ctx).grows_to(*final(ctx)),
            final(ctx).build@ == gained(old(ctx).build@, outcome(r)),
    {
        node.expect(Rule::Datatype)?;
        Datatype::from_pair_unchecked(node, ctx)
    }
}

impl ObjectProperty {
    /// What a object-property node stands for, its rule taken for granted: the IRI
    /// that its only child stands for.
    pub open spec fn lowered_unchecked(
        node: ParseNode,
        m: PrefixMapView,
    ) -> Result<Seq<char>, HornedError> {
        match node.spec_child(0) {
            Err(e) => Err(e),
            Ok(inner) => match IRI::lowered(inner, m) {
                Err(e) => Err(e),
                Ok(iri) => Ok(iri),
            },
        }
    }

    /// Lowers a object-property node without looking at its rule.
    pub fn from_pair_unchecked(
        node: &ParseNode,
        ctx: &mut Context,
    ) -> (r: Result<ObjectProperty, HornedError>)
        ensures
            outcome(r) == ObjectProperty::lowered_unchecked(*node, old(ctx).mapping@),
            old(ctx).grows_to(*final(ctx)),
            final(ctx).build@ == gained(old(ctx).build@, outcome(r)),
    {
        let inner = node.child(0)?;
        let iri = IRI::from_pair(inner, ctx)?;
        Ok(ObjectProperty(iri))
    }

    /// What a object-property node stands for.
    pub open spec fn lowered(node: ParseNode, m: PrefixMapView) -> Result<Seq<char>, HornedError> {
        match node.spec_expect(Rule::ObjectProperty) {
            Err(e) => Err(e),
            Ok(_) => ObjectProperty::lowered_unchecked(node, m),
        }
    }

    /// Lowers a object-property node.
    pub fn from_pair(
        node: &ParseNode,
        ctx: &mut Context,
    ) -> (r: Result<ObjectProperty, HornedError>)
        ensures
            outcome(r) == ObjectProperty::lowered(*node, old(ctx).mapping@),
            old(ctx).grows_to(*final(ctx)),
            final(ctx).build@ == gained(old(ctx).build@, outcome(r)),
    {
        node.expect(Rule::ObjectProperty)?;
        ObjectProperty::from_pair_unchecked(node, ctx)
    }
}

impl DataProperty {
    /// What a data-property node stands for, its rule taken for granted: the IRI
    /// that its only child stands for.
    pub open spec fn lowered_unchecked(
        node: ParseNode,
        m: PrefixMapView,
    ) -> Result<Seq<char>, HornedError> {
        match node.spec_child(0) {
            Err(e) => Err(e),
            Ok(inner) => match IRI::lowered(inner, m) {
                Err(e) => Err(e),
                Ok(iri) => Ok(iri),
            },
        }
    }

    /// Lowers a data-property node without looking at its rule.
    pub fn from_pair_unchecked(
        node: &ParseNode,
        ctx: &mut Context,
    ) -> (r: Result<DataProperty, HornedError>)
        ensures
            outcome(r) == DataProperty::lowered_unchecked(*node, old(ctx).mapping@),
            old(ctx).grows_to(*final(ctx)),
            final(ctx).build@ == gained(old(ctx).build@, outcome(r)),
    {
        let inner = node.child(0)?;
        let iri = IRI::from_pair(inner, ctx)?;
        Ok(DataProperty(iri))
    }

    /// What a data-property node stands for.
    pub open spec fn lowered(node: ParseNode, m: PrefixMapView) -> Result<Seq<char>, HornedError> {
        match node.spec_expect(Rule::DataProperty) {
            Err(e) => Err(e),
            Ok(_) => DataProperty::lowered_unchecked(node, m),
        }
    }

    /// Lowers a data-property node.
    pub fn from_pair(node: &ParseNode, ctx: &mut Context) -> (r: Result<DataProperty, HornedError>)
        ensures
            outcome(r) == DataProperty::lowered(*node, old(ctx).mapping@),
            old(ctx).grows_to(*final(ctx)),
            final(ctx).build@ == gained(old(ctx).build@, outcome(r)),
    {
        node.expect(Rule::DataProperty)?;
        DataProperty::from_pair_unchecked(node, ctx)
    }

    /// What each child of `node` from position `from` on stands for, taken as
    /// a data-property node.
    pub open spec fn outcomes(node: ParseNode, from: int, m: PrefixMapView) -> Seq<
        Result<Seq<char>, HornedError>,
    >
    {
        Seq::new(
            remaining(node, from),
            |i: int|
                if 0 <= i < remaining(node, from) {
                    DataProperty::lowered(node.children@[from + i], m)
                } else {
                    arbitrary()
                },
        )
    }

    /// What the children of `node` from position `from` on stand for, each of
    /// them a data-property node: the values of all of them in order, or the first
    /// error among them.
    pub open spec fn lowered_all(node: ParseNode, from: int, m: PrefixMapView) -> Result<
        Seq<Seq<char>>,
        HornedError,
    >
    {
        collect(DataProperty::outcomes(node, from, m))
    }

    /// Lowers the children of `node` from position `from` on, each of them
    /// a data-property node.
    pub fn from_pairs(node: &ParseNode, from: usize, ctx: &mut Context) -> (r: Result<
        Vec<DataProperty>,
        HornedError,
    >)
        ensures
            match r {
                Ok(v) => DataProperty::lowered_all(*node, from as int, old(ctx).mapping@) == Ok::<
                    Seq<Seq<char>>,
                    HornedError,
                >(DataProperty::seq_view(v)),
                Err(e) => DataProperty::lowered_all(*node, from as int, old(ctx).mapping@) == Err::<
                    Seq<Seq<char>>,
                    HornedError,
                >(e),
            },
            old(ctx).grows_to(*final(ctx)),
    {
        let mut out: Vec<DataProperty> = Vec::new();
        let ghost m = old(ctx).mapping@;
        let ghost outcomes = DataProperty::outcomes(*node, from as int, m);
        if from >= node.children.len() {
            assert(DataProperty::seq_view(out) =~= Seq::<Seq<char>>::empty());
            return Ok(out);
        }
        let mut i: usize = from;
        proof {
            assert(outcomes.take(0) =~= Seq::<Result<Seq<char>, HornedError>>::empty());
            assert(DataProperty::seq_view(out) =~= Seq::<Seq<char>>::empty());
        }
        while i < node.children.len()
            invariant
                from <= i <= node.children.len(),
                m == old(ctx).mapping@,
                old(ctx).grows_to(*ctx),
                outcomes == DataProperty::outcomes(*node, from as int, m),
                outcomes.len() == node.children.len() - from,
                forall|k: int|
                    0 <= k < outcomes.len() ==> #[trigger] outcomes[k] == DataProperty::lowered(
                        node.children@[from + k],
                        m,
                    ),
                collect(outcomes.take(i - from)) == Ok::<Seq<Seq<char>>, HornedError>(
                    DataProperty::seq_view(out),
                ),
            decreases node.children.len() - i,
        {
            let ghost before = DataProperty::seq_view(out);
            match DataProperty::from_pair(&node.children[i], ctx) {
                Ok(v) => {
                    proof {
                        lemma_collect_value(outcomes, i - from, before, v@);
                    }
                    out.push(v);
                    assert(DataProperty::seq_view(out) =~= before.push(v@));
                },
                Err(e) => {
                    proof {
                        lemma_collect_error(outcomes, i - from, e);
                                            }
                    return Err(e);
                },
            }
            i += 1;
        }
        proof {
            lemma_collect_all(outcomes);
        }
        Ok(out)
    }
}

impl AnnotationProperty {
    /// What a annotation-property node stands for, its rule taken for granted: the IRI
    /// that its only child stands for.
    pub open spec fn lowered_unchecked(
        node: ParseNode,
        m: PrefixMapView,
    ) -> Result<Seq<char>, HornedError> {
        match node.spec_child(0) {
            Err(e) => Err(e),
            Ok(inner) => match IRI::lowered(inner, m) {
                Err(e) => Err(e),
                Ok(iri) => Ok(iri),
            },
        }
    }

    /// Lowers a annotation-property node without looking at its rule.
    pub fn from_pair_unchecked(
        node: &ParseNode,
        ctx: &mut Context,
    ) -> (r: Result<AnnotationProperty, HornedError>)
        ensures
            outcome(r) == AnnotationProperty::lowered_unchecked(*node, old(ctx).mapping@),
            old(ctx).grows_to(*final(ctx)),
            final(ctx).build@ == gained(old(ctx).build@, outcome(r)),
    {
        let inner = node.child(0)?;
        let iri = IRI::from_pair(inner, ctx)?;
        Ok(AnnotationProperty(iri))
    }

    /// What a annotation-property node stands for.
    pub open spec fn lowered(node: ParseNode, m: PrefixMapView) -> Result<Seq<char>, HornedError> {
        match node.spec_expect(Rule::AnnotationProperty) {
            Err(e) => Err(e),
            Ok(_) => AnnotationProperty::lowered_unchecked(node, m),
        }
    }

    /// Lowers a annotation-property node.
    pub fn from_pair(
        node: &ParseNode,
        ctx: &mut Context,
    ) -> (r: Result<AnnotationProperty, HornedError>)
        ensures
            outcome(r) == AnnotationProperty::lowered(*node, old(ctx).mapping@),
            old(ctx).grows_to(*final(ctx)),
            final(ctx).build@ == gained(old(ctx).build@, outcome(r)),
    {
        node.expect(Rule::AnnotationProperty)?;
        AnnotationProperty::from_pair_unchecked(node, ctx)
    }
}

impl NamedIndividual {
    /// What a named-individual node stands for, its rule taken for granted: the IRI
    /// that its only child stands for.
    pub open spec fn lowered_unchecked(
        node: ParseNode,
        m: PrefixMapView,
    ) -> Result<Seq<char>, HornedError> {
        match node.spec_child(0) {
            Err(e) => Err(e),
            Ok(inner) => match IRI::lowered(inner, m) {
                Err(e) => Err(e),
                Ok(iri) => Ok(iri),
            },
        }
    }

    /// Lowers a named-individual node without looking at its rule.
    pub fn from_pair_unchecked(
        node: &ParseNode,
        ctx: &mut Context,
    ) -> (r: Result<NamedIndividual, HornedError>)
        ensures
            outcome(r) == NamedIndividual::lowered_unchecked(*node, old(ctx).mapping@),
            old(ctx).grows_to(*final(ctx)),
            final(ctx).build@ == gained(old(ctx).build@, outcome(r)),
    {
        let inner = node.child(0)?;
        let iri = IRI::from_pair(inner, ctx)?;
        Ok(NamedIndividual(iri))
    }

    /// What a named-individual node stands for.
    pub open spec fn lowered(node: ParseNode, m: PrefixMapView) -> Result<Seq<char>, HornedError> {
        match node.spec_expect(Rule::NamedIndividual) {
            Err(e) => Err(e),
            Ok(_) => NamedIndividual::lowered_unchecked(node, m),
        }
    }

    /// Lowers a named-individual node.
    pub fn from_pair(
        node: &ParseNode,
        ctx: &mut Context,
    ) -> (r: Result<NamedIndividual, HornedError>)
        ensures
            outcome(r) == NamedIndividual::lowered(*node, old(ctx).mapping@),
            old(ctx).grows_to(*final(ctx)),
            final(ctx).build@ == gained(old(ctx).build@, outcome(r)),
    {
        node.expect(Rule::NamedIndividual)?;
        NamedIndividual::from_pair_unchecked(node, ctx)
    }
}

impl AnonymousIndividual {
    /// What an anonymous-individual node stands for, its rule taken for granted:
    /// the text of the node below its node identifier, which is the identifier
    /// without the prefix that marks it.
    pub open spec fn lowered_unchecked(
        node: ParseNode,
        m: PrefixMapView,
    ) -> Result<Seq<char>, HornedError> {
        match node.spec_child(0) {
            Err(e) => Err(e),
            Ok(id) => match id.spec_child(0) {
                Err(e) => Err(e),
                Ok(label) => Ok(label.text@),
            },
        }
    }

    /// Lowers an anonymous-individual node without looking at its rule.
    pub fn from_pair_unchecked(
        node: &ParseNode,
        ctx: &mut Context,
    ) -> (r: Result<AnonymousIndividual, HornedError>)
        ensures
            outcome(r) == AnonymousIndividual::lowered_unchecked(*node, old(ctx).mapping@),
            old(ctx).grows_to(*final(ctx)),
    {
        let id = node.child(0)?;
        let label = id.child(0)?;
        Ok(AnonymousIndividual(label.text.clone()))
    }

    /// What an anonymous-individual node stands for.
    pub open spec fn lowered(node: ParseNode, m: PrefixMapView) -> Result<Seq<char>, HornedError> {
        match node.spec_expect(Rule::AnonymousIndividual) {
            Err(e) => Err(e),
            Ok(_) => AnonymousIndividual::lowered_unchecked(node, m),
        }
    }

    /// Lowers an anonymous-individual node.
    pub fn from_pair(
        node: &ParseNode,
        ctx: &mut Context,
    ) -> (r: Result<AnonymousIndividual, HornedError>)
        ensures
            outcome(r) == AnonymousIndividual::lowered(*node, old(ctx).mapping@),
            old(ctx).grows_to(*final(ctx)),
    {
        node.expect(Rule::AnonymousIndividual)?;
        AnonymousIndividual::from_pair_unchecked(node, ctx)
    }
}

impl Individual {
    /// What an individual node stands for, its rule taken for granted: what its
    /// only child stands for, which is a named or an anonymous individual.
    pub open spec fn lowered_unchecked(
        node: ParseNode,
        m: PrefixMapView,
    ) -> Result<IndividualView, HornedError> {
        match node.spec_child(0) {
            Err(e) => Err(e),
            Ok(inner) => match inner.rule {
                Rule::NamedIndividual => {
                    match NamedIndividual::lowered(inner, m) {
                        Err(e) => Err(e),
                        Ok(i) => Ok(IndividualView::Named(i)),
                    }
                },
                Rule::AnonymousIndividual => {
                    match AnonymousIndividual::lowered(inner, m) {
                        Err(e) => Err(e),
                        Ok(i) => Ok(IndividualView::Anonymous(i)),
                    }
                },
                _ => Err(HornedError::unexpected(inner.rule, inner.span)),
            },
        }
    }

    /// Lowers an individual node without looking at its rule.
    pub fn from_pair_unchecked(
        node: &ParseNode,
        ctx: &mut Context,
    ) -> (r: Result<Individual, HornedError>)
        ensures
            outcome(r) == Individual::lowered_unchecked(*node, old(ctx).mapping@),
            old(ctx).grows_to(*final(ctx)),
    {
        let inner = node.child(0)?;
        match inner.rule {
            Rule::NamedIndividual => {
                let i = NamedIndividual::from_pair(inner, ctx)?;
                Ok(Individual::Named(i))
            },
            Rule::AnonymousIndividual => {
                let i = AnonymousIndividual::from_pair(inner, ctx)?;
                Ok(Individual::Anonymous(i))
            },
            _ => Err(
                HornedError::ParseError {
                    positives: Some(inner.rule),
                    negatives: None,
                    span: inner.span,
                },
            ),
        }
    }

    /// What an individual node stands for.
    pub open spec fn lowered(
        node: ParseNode,
        m: PrefixMapView,
    ) -> Result<IndividualView, HornedError> {
        match node.spec_expect(Rule::Individual) {
            Err(e) => Err(e),
            Ok(_) => Individual::lowered_unchecked(node, m),
        }
    }

    /// Lowers an individual node.
    pub fn from_pair(node: &ParseNode, ctx: &mut Context) -> (r: Result<Individual, HornedError>)
        ensures
            outcome(r) == Individual::lowered(*node, old(ctx).mapping@),
            old(ctx).grows_to(*final(ctx)),
    {
        node.expect(Rule::Individual)?;
        Individual::from_pair_unchecked(node, ctx)
    }

    /// What each child of `node` from position `from` on stands for, taken as
    /// an individual node.
    pub open spec fn outcomes(node: ParseNode, from: int, m: PrefixMapView) -> Seq<
        Result<IndividualView, HornedError>,
    >
    {
        Seq::new(
            remaining(node, from),
            |i: int|
                if 0 <= i < remaining(node, from) {
                    Individual::lowered(node.children@[from + i], m)
                } else {
                    arbitrary()
                },
        )
    }

    /// What the children of `node` from position `from` on stand for, each of
    /// them an individual node: the values of all of them in order, or the first
    /// error among them.
    pub open spec fn lowered_all(node: ParseNode, from: int, m: PrefixMapView) -> Result<
        Seq<IndividualView>,
        HornedError,
    >
    {
        collect(Individual::outcomes(node, from, m))
    }

    /// Lowers the children of `node` from position `from` on, each of them
    /// an individual node.
    pub fn from_pairs(node: &ParseNode, from: usize, ctx: &mut Context) -> (r: Result<
        Vec<Individual>,
        HornedError,
    >)
        ensures
            match r {
                Ok(v) => Individual::lowered_all(*node, from as int, old(ctx).mapping@) == Ok::<
                    Seq<IndividualView>,
                    HornedError,
                >(Individual::seq_view(v)),
                Err(e) => Individual::lowered_all(*node, from as int, old(ctx).mapping@) == Err::<
                    Seq<IndividualView>,
                    HornedError,
                >(e),
            },
            old(ctx).grows_to(*final(ctx)),
    {
        let mut out: Vec<Individual> = Vec::new();
        let ghost m = old(ctx).mapping@;
        let ghost outcomes = Individual::outcomes(*node, from as int, m);
        if from >= node.children.len() {
            assert(Individual::seq_view(out) =~= Seq::<IndividualView>::empty());
            return Ok(out);
        }
        let mut i: usize = from;
        proof {
            assert(outcomes.take(0) =~= Seq::<Result<IndividualView, HornedError>>::empty());
            assert(Individual::seq_view(out) =~= Seq::<IndividualView>::empty());
        }
        while i < node.children.len()
            invariant
                from <= i <= node.children.len(),
                m == old(ctx).mapping@,
                old(ctx).grows_to(*ctx),
                outcomes == Individual::outcomes(*node, from as int, m),
                outcomes.len() == node.children.len() - from,
                forall|k: int|
                    0 <= k < outcomes.len() ==> #[trigger] outcomes[k] == Individual::lowered(
                        node.children@[from + k],
                        m,
                    ),
                collect(outcomes.take(i - from)) == Ok::<Seq<IndividualView>, HornedError>(
                    Individual::seq_view(out),
                ),
            decreases node.children.len() - i,
        {
            let ghost before = Individual::seq_view(out);
            match Individual::from_pair(&node.children[i], ctx) {
                Ok(v) => {
                    proof {
                        lemma_collect_value(outcomes, i - from, before, v@);
                    }
                    out.push(v);
                    assert(Individual::seq_view(out) =~= before.push(v@));
                },
                Err(e) => {
                    proof {
                        lemma_collect_error(outcomes, i - from, e);
                                            }
                    return Err(e);
                },
            }
            i += 1;
        }
        proof {
            lemma_collect_all(outcomes);
        }
        Ok(out)
    }
}

impl Literal {
    /// What a literal node stands for, its rule taken for granted. Its only child
    /// decides: a typed literal has a quoted string and a datatype, a string with
    /// language has a quoted string and a language tag, a plain string has a
    /// quoted string only, and a literal nested in a literal is read through.
    pub open spec fn lowered_unchecked(
        node: ParseNode,
        m: PrefixMapView,
    ) -> Result<LiteralView, HornedError>
        decreases node, 0int,
    {
        match node.spec_child(0) {
            Err(e) => Err(e),
            Ok(inner) => match inner.rule {
                Rule::Literal => {
                    match inner.spec_child(0) {
                        Err(e) => Err(e),
                        Ok(nested) => Literal::lowered(nested, m),
                    }
                },
                Rule::TypedLiteral => {
                    match inner.spec_child(0) {
                        Err(e) => Err(e),
                        Ok(q) => match lowered_quoted_string(q) {
                            Err(e) => Err(e),
                            Ok(literal) => match inner.spec_child(1) {
                                Err(e) => Err(e),
                                Ok(d) => match Datatype::lowered(d, m) {
                                    Err(e) => Err(e),
                                    Ok(datatype_iri) => {
                                        Ok(LiteralView::Datatype { literal, datatype_iri })
                                    },
                                },
                            },
                        },
                    }
                },
                Rule::StringLiteralWithLanguage => {
                    match inner.spec_child(0) {
                        Err(e) => Err(e),
                        Ok(q) => match lowered_quoted_string(q) {
                            Err(e) => Err(e),
                            Ok(literal) => match inner.spec_child(1) {
                                Err(e) => Err(e),
                                Ok(tag) => match lowered_language_tag(tag) {
                                    Err(e) => Err(e),
                                    Ok(lang) => Ok(LiteralView::Language { literal, lang }),
                                },
                            },
                        },
                    }
                },
                Rule::StringLiteralNoLanguage => {
                    match inner.spec_child(0) {
                        Err(e) => Err(e),
                        Ok(q) => match lowered_quoted_string(q) {
                            Err(e) => Err(e),
                            Ok(literal) => Ok(LiteralView::Simple { literal }),
                        },
                    }
                },
                _ => Err(HornedError::unexpected(inner.rule, inner.span)),
            },
        }
    }

    /// Lowers a literal node without looking at its rule.
    pub fn from_pair_unchecked(
        node: &ParseNode,
        ctx: &mut Context,
    ) -> (r: Result<Literal, HornedError>)
        ensures
            outcome(r) == Literal::lowered_unchecked(*node, old(ctx).mapping@),
            old(ctx).grows_to(*final(ctx)),
        decreases node, 0int,
    {
        let inner = node.child(0)?;
        match inner.rule {
            Rule::Literal => {
                let nested = inner.child(0)?;
                Literal::from_pair(nested, ctx)
            },
            Rule::TypedLiteral => {
                let q = inner.child(0)?;
                let literal = quoted_string_from_pair(q)?;
                let d = inner.child(1)?;
                let datatype_iri = Datatype::from_pair(d, ctx)?;
                Ok(Literal::Datatype { literal, datatype_iri: datatype_iri.0 })
            },
            Rule::StringLiteralWithLanguage => {
                let q = inner.child(0)?;
                let literal = quoted_string_from_pair(q)?;
                let tag = inner.child(1)?;
                let lang = language_tag_from_pair(tag)?;
                Ok(Literal::Language { literal, lang })
            },
            Rule::StringLiteralNoLanguage => {
                let q = inner.child(0)?;
                let literal = quoted_string_from_pair(q)?;
                Ok(Literal::Simple { literal })
            },
            _ => Err(
                HornedError::ParseError {
                    positives: Some(inner.rule),
                    negatives: None,
                    span: inner.span,
                },
            ),
        }
    }

    /// What a literal node stands for.
    pub open spec fn lowered(node: ParseNode, m: PrefixMapView) -> Result<LiteralView, HornedError>
        decreases node, 1int,
    {
        match node.spec_expect(Rule::Literal) {
            Err(e) => Err(e),
            Ok(_) => Literal::lowered_unchecked(node, m),
        }
    }

    /// Lowers a literal node.
    pub fn from_pair(node: &ParseNode, ctx: &mut Context) -> (r: Result<Literal, HornedError>)
        ensures
            outcome(r) == Literal::lowered(*node, old(ctx).mapping@),
            old(ctx).grows_to(*final(ctx)),
        decreases node, 1int,
    {
        node.expect(Rule::Literal)?;
        Literal::from_pair_unchecked(node, ctx)
    }

    /// What each child of `node` from position `from` on stands for, taken as
    /// a literal node.
    pub open spec fn outcomes(node: ParseNode, from: int, m: PrefixMapView) -> Seq<
        Result<LiteralView, HornedError>,
    >
    {
        Seq::new(
            remaining(node, from),
            |i: int|
                if 0 <= i < remaining(node, from) {
                    Literal::lowered(node.children@[from + i], m)
                } else {
                    arbitrary()
                },
        )
    }

    /// What the children of `node` from position `from` on stand for, each of
    /// them a literal node: the values of all of them in order, or the first
    /// error among them.
    pub open spec fn lowered_all(node: ParseNode, from: int, m: PrefixMapView) -> Result<
        Seq<LiteralView>,
        HornedError,
    >
    {
        collect(Literal::outcomes(node, from, m))
    }

    /// Lowers the children of `node` from position `from` on, each of them
    /// a literal node.
    pub fn from_pairs(node: &ParseNode, from: usize, ctx: &mut Context) -> (r: Result<
        Vec<Literal>,
        HornedError,
    >)
        ensures
            match r {
                Ok(v) => Literal::lowered_all(*node, from as int, old(ctx).mapping@) == Ok::<
                    Seq<LiteralView>,
                    HornedError,
                >(Literal::seq_view(v)),
                Err(e) => Literal::lowered_all(*node, from as int, old(ctx).mapping@) == Err::<
                    Seq<LiteralView>,
                    HornedError,
                >(e),
            },
            old(ctx).grows_to(*final(ctx)),
    {
        let mut out: Vec<Literal> = Vec::new();
        let ghost m = old(ctx).mapping@;
        let ghost outcomes = Literal::outcomes(*node, from as int, m);
        if from >= node.children.len() {
            assert(Literal::seq_view(out) =~= Seq::<LiteralView>::empty());
            return Ok(out);
        }
        let mut i: usize = from;
        proof {
            assert(outcomes.take(0) =~= Seq::<Result<LiteralView, HornedError>>::empty());
            assert(Literal::seq_view(out) =~= Seq::<LiteralView>::empty());
        }
        while i < node.children.len()
            invariant
                from <= i <= node.children.len(),
                m == old(ctx).mapping@,
                old(ctx).grows_to(*ctx),
                outcomes == Literal::outcomes(*node, from as int, m),
                outcomes.len() == node.children.len() - from,
                forall|k: int|
                    0 <= k < outcomes.len() ==> #[trigger] outcomes[k] == Literal::lowered(
                        node.children@[from + k],
                        m,
                    ),
                collect(outcomes.take(i - from)) == Ok::<Seq<LiteralView>, HornedError>(
                    Literal::seq_view(out),
                ),
            decreases node.children.len() - i,
        {
            let ghost before = Literal::seq_view(out);
            match Literal::from_pair(&node.children[i], ctx) {
                Ok(v) => {
                    proof {
                        lemma_collect_value(outcomes, i - from, before, v@);
                    }
                    out.push(v);
                    assert(Literal::seq_view(out) =~= before.push(v@));
                },
                Err(e) => {
                    proof {
                        lemma_collect_error(outcomes, i - from, e);
                                            }
                    return Err(e);
                },
            }
            i += 1;
        }
        proof {
            lemma_collect_all(outcomes);
        }
        Ok(out)
    }
}

} // verus!
