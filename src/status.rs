use vstd::prelude::*;

verus! {

/// The closed set of lifecycle states a task may occupy.
#[allow(non_camel_case_types)]
#[derive(Clone, Copy, Debug, PartialEq, Eq, Structural)]
pub enum Status {
    UNCOMPLETED,
    COMPLETED,
    UPDATED,
    CANCELED,
    POSTPONE,
}

/// The text under which a status is stored and exchanged.
pub open spec fn status_name(s: Status) -> Seq<char> {
    match s {
        Status::UNCOMPLETED => "UNCOMPLETED"@,
        Status::COMPLETED => "COMPLETED"@,
        Status::UPDATED => "UPDATED"@,
        Status::CANCELED => "CANCELED"@,
        Status::POSTPONE => "POSTPONE"@,
    }
}

/// The status whose name is `text`, if there is one.
pub open spec fn status_named(text: Seq<char>) -> Option<Status> {
    if text == "UNCOMPLETED"@ {
        Some(Status::UNCOMPLETED)
    } else if text == "COMPLETED"@ {
        Some(Status::COMPLETED)
    } else if text == "UPDATED"@ {
        Some(Status::UPDATED)
    } else if text == "CANCELED"@ {
        Some(Status::CANCELED)
    } else if text == "POSTPONE"@ {
        Some(Status::POSTPONE)
    } else {
        None
    }
}

/// A stored status: its name when it has one, and `UNCOMPLETED` otherwise.
pub open spec fn stored_status(text: Seq<char>) -> Status {
    match status_named(text) {
        Some(s) => s,
        None => Status::UNCOMPLETED,
    }
}

impl Status {
    /// The name of this status.
    pub fn as_str(&self) -> (r: &'static str)
        ensures
            r@ == status_name(*self),
    {
        match self {
            Status::UNCOMPLETED => "UNCOMPLETED",
            Status::COMPLETED => "COMPLETED",
            Status::UPDATED => "UPDATED",
            Status::CANCELED => "CANCELED",
            Status::POSTPONE => "POSTPONE",
        }
    }

    /// The status named by `text`; `None` for any other text.
    pub fn from_name(text: &str) -> (r: Option<Status>)
        ensures
            r == status_named(text@),
    {
        let t = text.to_owned();
        if t == "UNCOMPLETED".to_owned() {
            Some(Status::UNCOMPLETED)
        } else if t == "COMPLETED".to_owned() {
            Some(Status::COMPLETED)
        } else if t == "UPDATED".to_owned() {
            Some(Status::UPDATED)
        } else if t == "CANCELED".to_owned() {
            Some(Status::CANCELED)
        } else if t == "POSTPONE".to_owned() {
            Some(Status::POSTPONE)
        } else {
            None
        }
    }

    /// The status read back from storage: unknown text counts as `UNCOMPLETED`.
    pub fn from_stored(text: &str) -> (r: Status)
        ensures
            r == stored_status(text@),
    {
        match Status::from_name(text) {
            Some(s) => s,
            None => Status::UNCOMPLETED,
        }
    }
}

/// Every status is read back from its own name.
pub proof fn lemma_name_round_trip(s: Status)
    ensures
        status_named(status_name(s)) == Some(s),
        stored_status(status_name(s)) == s,
{
    reveal_strlit("UNCOMPLETED");
    reveal_strlit("COMPLETED");
    reveal_strlit("UPDATED");
    reveal_strlit("CANCELED");
    reveal_strlit("POSTPONE");
    assert("COMPLETED"@ != "UNCOMPLETED"@) by {
        assert("COMPLETED"@[0] != "UNCOMPLETED"@[0]);
    }
    assert("UPDATED"@ != "UNCOMPLETED"@) by {
        assert("UPDATED"@.len() != "UNCOMPLETED"@.len());
    }
    assert("CANCELED"@ != "UNCOMPLETED"@) by {
        assert("CANCELED"@.len() != "UNCOMPLETED"@.len());
    }
    assert("CANCELED"@ != "COMPLETED"@) by {
        assert("CANCELED"@.len() != "COMPLETED"@.len());
    }
    assert("CANCELED"@ != "UPDATED"@) by {
        assert("CANCELED"@[0] != "UPDATED"@[0]);
    }
    assert("POSTPONE"@ != "UNCOMPLETED"@) by {
        assert("POSTPONE"@.len() != "UNCOMPLETED"@.len());
    }
    assert("POSTPONE"@ != "COMPLETED"@) by {
        assert("POSTPONE"@.len() != "COMPLETED"@.len());
    }
    assert("POSTPONE"@ != "UPDATED"@) by {
        assert("POSTPONE"@.len() != "UPDATED"@.len());
    }
    assert("POSTPONE"@ != "CANCELED"@) by {
        assert("POSTPONE"@[0] != "CANCELED"@[0]);
    }
}

} // verus!
