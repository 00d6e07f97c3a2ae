use vstd::prelude::*;

verus! {

/// A raw change notification, reduced to the kinds the classifier tells apart.
#[derive(Clone, Copy, Debug, PartialEq, Eq, Structural)]
pub enum RawKind {
    Create,
    Modify,
    Remove,
    /// Rename, metadata-only change, access and anything else.
    Other,
}

/// A classified, human-meaningful event that is kept in the history.
#[derive(Clone, Copy, Debug, PartialEq, Eq, Structural)]
pub enum SemanticEvent {
    Create,
    Append,
    Overwrite,
    Delete,
}

/// What the classifier makes of one notification on one path.
#[derive(Clone, Copy, Debug, PartialEq, Eq, Structural)]
pub enum Label {
    Create,
    Append,
    Overwrite,
    Delete,
    Ignore,
}

impl Label {
    /// The event to record, or `None` for `Ignore`.
    pub open spec fn spec_event(self) -> Option<SemanticEvent> {
        match self {
            Label::Create => Some(SemanticEvent::Create),
            Label::Append => Some(SemanticEvent::Append),
            Label::Overwrite => Some(SemanticEvent::Overwrite),
            Label::Delete => Some(SemanticEvent::Delete),
            Label::Ignore => None,
        }
    }

    pub fn event(self) -> (r: Option<SemanticEvent>)
        ensures
            r == self.spec_event(),
    {
        match self {
            Label::Create => Some(SemanticEvent::Create),
            Label::Append => Some(SemanticEvent::Append),
            Label::Overwrite => Some(SemanticEvent::Overwrite),
            Label::Delete => Some(SemanticEvent::Delete),
            Label::Ignore => None,
        }
    }
}

impl SemanticEvent {
    /// The lower-case name under which the event is persisted and replayed.
    pub open spec fn spec_name(self) -> Seq<char> {
        match self {
            SemanticEvent::Create => "create"@,
            SemanticEvent::Append => "append"@,
            SemanticEvent::Overwrite => "overwrite"@,
            SemanticEvent::Delete => "delete"@,
        }
    }

    /// The upper-case name shown on the console.
    pub open spec fn spec_upper_name(self) -> Seq<char> {
        match self {
            SemanticEvent::Create => "CREATE"@,
            SemanticEvent::Append => "APPEND"@,
            SemanticEvent::Overwrite => "OVERWRITE"@,
            SemanticEvent::Delete => "DELETE"@,
        }
    }

    pub fn name(self) -> (r: &'static str)
        ensures
            r@ == self.spec_name(),
    {
        match self {
            SemanticEvent::Create => "create",
            SemanticEvent::Append => "append",
            SemanticEvent::Overwrite => "overwrite",
            SemanticEvent::Delete => "delete",
        }
    }

    pub fn upper_name(self) -> (r: &'static str)
        ensures
            r@ == self.spec_upper_name(),
    {
        match self {
            SemanticEvent::Create => "CREATE",
            SemanticEvent::Append => "APPEND",
            SemanticEvent::Overwrite => "OVERWRITE",
            SemanticEvent::Delete => "DELETE",
        }
    }
}

} // verus!
