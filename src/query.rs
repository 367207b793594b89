use vstd::prelude::*;

verus! {

/// A label id of the query engine.
pub type LabelId = i32;

/// A property key id of the query engine.
pub type KeyId = i32;

/// The scale of a sample ratio: a ratio of `SAMPLE_SCALE` keeps every row.
pub const SAMPLE_SCALE: u32 = 1000000;

/// One value or several.
#[derive(Clone, Debug)]
pub enum OneOrMany<T> {
    One([T; 1]),
    Many(Vec<T>),
}

impl<T> View for OneOrMany<T> {
    type V = Seq<T>;

    open spec fn view(&self) -> Seq<T> {
        match self {
            OneOrMany::One(one) => one@,
            OneOrMany::Many(many) => many@,
        }
    }
}

impl<T> OneOrMany<T> {
    /// The values as a slice.
    pub fn as_ref(&self) -> (r: &[T])
        ensures
            r@ == self@,
    {
        match self {
            OneOrMany::One(one) => one.as_slice(),
            OneOrMany::Many(many) => many.as_slice(),
        }
    }
}

impl<T: Default> Default for OneOrMany<T> {
    fn default() -> (r: Self)
        ensures
            r is One,
    {
        OneOrMany::One([T::default()])
    }
}

impl<T> From<T> for OneOrMany<T> {
    fn from(t: T) -> (r: Self) {
        OneOrMany::One([t])
    }
}

impl<T> vstd::std_specs::convert::FromSpecImpl<T> for OneOrMany<T> {
    open spec fn obeys_from_spec() -> bool {
        true
    }

    open spec fn from_spec(t: T) -> Self {
        OneOrMany::One([t])
    }
}

impl<T> From<Vec<T>> for OneOrMany<T> {
    fn from(ts: Vec<T>) -> (r: Self) {
        OneOrMany::Many(ts)
    }
}

impl<T> vstd::std_specs::convert::FromSpecImpl<Vec<T>> for OneOrMany<T> {
    open spec fn obeys_from_spec() -> bool {
        true
    }

    open spec fn from_spec(ts: Vec<T>) -> Self {
        OneOrMany::Many(ts)
    }
}

/// A property or tag named by a string or by an id.
#[derive(Clone, Debug)]
pub enum NameOrId {
    Str(String),
    Id(KeyId),
}

/// What a row filter looks like to the read adapter: whether it converts to a
/// condition that the store evaluates, and the property ids it reads (`None`
/// when it reads none).
#[derive(Clone, Debug)]
pub struct RowFilter {
    pub convertible: bool,
    pub prop_ids: Option<Vec<KeyId>>,
}

/// The parameters of one scan, expansion or lookup.
#[derive(Clone, Debug)]
pub struct QueryParams {
    /// The labels to keep; empty keeps every label.
    pub labels: Vec<LabelId>,
    /// The properties needed: `None` for none, `Some` of an empty list for all
    /// of them, or the listed ones.
    pub columns: Option<Vec<NameOrId>>,
    /// The row filter, if any.
    pub filter: Option<RowFilter>,
    /// The most rows to return; `None` or 0 means no limit.
    pub limit: Option<usize>,
    /// The share of rows to keep, out of `SAMPLE_SCALE`.
    pub sample_ratio: u32,
    /// Engine-specific settings, such as the snapshot id under "SID".
    pub extra: Vec<(String, String)>,
}

impl QueryParams {
    pub open spec fn wf(&self) -> bool {
        0 < self.sample_ratio <= SAMPLE_SCALE
    }

    pub fn has_labels(&self) -> (r: bool)
        ensures
            r == (self.labels@.len() > 0),
    {
        !self.labels.is_empty()
    }

    pub fn has_columns(&self) -> (r: bool)
        ensures
            r == self.columns is Some,
    {
        self.columns.is_some()
    }

    pub fn has_predicates(&self) -> (r: bool)
        ensures
            r == self.filter is Some,
    {
        self.filter.is_some()
    }

    pub fn has_sample(&self) -> (r: bool)
        ensures
            r == (self.sample_ratio != SAMPLE_SCALE),
    {
        self.sample_ratio != SAMPLE_SCALE
    }

    pub fn has_limit(&self) -> (r: bool)
        ensures
            r == self.limit is Some,
    {
        self.limit.is_some()
    }

    /// Whether the parameters ask for nothing beyond a plain scan.
    pub fn is_empty(&self) -> (r: bool)
        ensures
            r == (self.labels@.len() == 0 && self.columns is None && self.filter is None
                && self.limit is None && self.sample_ratio == SAMPLE_SCALE && self.extra@.len()
                == 0),
    {
        self.labels.is_empty() && self.columns.is_none() && self.filter.is_none()
            && self.limit.is_none() && self.sample_ratio == SAMPLE_SCALE && self.extra.is_empty()
    }
}

/// The direction of an expansion along edges.
#[derive(Clone, Copy, Debug, PartialEq, Eq, Structural)]
pub enum Direction {
    Out,
    In,
    Both,
}

impl Direction {
    pub open spec fn reverse_spec(self) -> Direction {
        match self {
            Direction::Out => Direction::In,
            Direction::In => Direction::Out,
            Direction::Both => Direction::Both,
        }
    }

    /// The direction seen from the other end of the edge.
    pub fn reverse(&self) -> (r: Direction)
        ensures
            r == self.reverse_spec(),
    {
        match self {
            Direction::Out => Direction::In,
            Direction::In => Direction::Out,
            Direction::Both => Direction::Both,
        }
    }
}

/// A logical operator of an expression.
#[derive(Clone, Copy, Debug, PartialEq, Eq, Structural)]
pub enum Logical {
    Eq,
    Ne,
    Lt,
    Le,
    Gt,
    Ge,
    Within,
    Without,
    Startswith,
    Endswith,
    And,
    Or,
    Not,
    Isnull,
    Regex,
}

impl Logical {
    /// Whether the operator takes one operand.
    pub fn is_unary(&self) -> (r: bool)
        ensures
            r == (*self == Logical::Not || *self == Logical::Isnull),
    {
        match self {
            Logical::Not | Logical::Isnull => true,
            _ => false,
        }
    }

    /// Whether the operator takes two operands.
    pub fn is_binary(&self) -> (r: bool)
        ensures
            r == !(*self == Logical::Not || *self == Logical::Isnull),
    {
        match self {
            Logical::Eq
            | Logical::Ne
            | Logical::Lt
            | Logical::Le
            | Logical::Gt
            | Logical::Ge
            | Logical::Within
            | Logical::Without
            | Logical::Startswith
            | Logical::Endswith
            | Logical::And
            | Logical::Or
            | Logical::Regex => true,
            _ => false,
        }
    }
}

/// The kind of a physical operator.
#[derive(Clone, Copy, Debug, PartialEq, Eq, Structural)]
pub enum OpKind {
    Repartition,
    Scan,
    Edge,
    Vertex,
    Path,
    Unfold,
    Project,
    GroupBy,
    Sink,
    Other,
}

/// A physical operator, whose kind may be missing.
#[derive(Clone, Copy, Debug, PartialEq, Eq, Structural)]
pub struct PhysicalOperator {
    pub op_kind: Option<OpKind>,
}

/// One operator of a physical plan.
#[derive(Clone, Copy, Debug, PartialEq, Eq, Structural)]
pub struct PhysicalOpr {
    pub opr: Option<PhysicalOperator>,
}

impl PhysicalOpr {
    /// Whether the operator moves data between workers.
    pub fn is_repartition(&self) -> (r: bool)
        ensures
            r == (self.opr == Some(PhysicalOperator { op_kind: Some(OpKind::Repartition) })),
    {
        match self.opr {
            Some(PhysicalOperator { op_kind: Some(OpKind::Repartition) }) => true,
            _ => false,
        }
    }
}

} // verus!
