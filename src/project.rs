//! Project documents and the slot that holds the current one.
use crate::error::CoreError;
use crate::json::{text_field, text_field_of};
use vstd::prelude::*;
use vstd::string::*;

verus! {

/// A project: its name, versions, the mods it references, and when it was
/// created.
pub struct ProjectDocument {
    pub name: String,
    pub version: String,
    pub target_platform_version: String,
    pub mods: Vec<String>,
    pub created_at: String,
}

pub struct ProjectView {
    pub name: Seq<char>,
    pub version: Seq<char>,
    pub target_platform_version: Seq<char>,
    pub mods: Seq<Seq<char>>,
    pub created_at: Seq<char>,
}

impl View for ProjectDocument {
    type V = ProjectView;

    open spec fn view(&self) -> ProjectView {
        ProjectView {
            name: self.name@,
            version: self.version@,
            target_platform_version: self.target_platform_version@,
            mods: self.mods@.map_values(|m: String| m@),
            created_at: self.created_at@,
        }
    }
}

/// A fresh project named `name`, created at `created_at`, with no mods.
pub open spec fn fresh_project(name: Seq<char>, created_at: Seq<char>) -> ProjectView {
    ProjectView {
        name,
        version: "1.0.0"@,
        target_platform_version: "1.20.1"@,
        mods: Seq::empty(),
        created_at,
    }
}

/// The current project after a document is made current: that document,
/// whatever was current before.
pub open spec fn with_current(before: Option<ProjectView>, doc: ProjectView) -> Option<ProjectView> {
    Some(doc)
}

/// The RFC 3339 text that chrono gives for `secs` seconds and `nanos`
/// nanoseconds after 1970-01-01T00:00:00Z.
pub uninterp spec fn rfc3339_of(secs: int, nanos: int) -> Seq<char>;

/// Relies on `SystemTime::now` and `SystemTime::duration_since(UNIX_EPOCH)`:
/// the whole seconds since 1970 and the nanoseconds below them, or `None`
/// where the clock reads earlier. `Duration::subsec_nanos` is always under one
/// second; nothing else is promised of the reading.
#[verifier::external_body]
fn clock_since_epoch() -> (r: Option<(u64, u32)>)
    ensures
        r matches Some(t) ==> t.1 < 1_000_000_000,
{
    match std::time::SystemTime::now().duration_since(std::time::UNIX_EPOCH) {
        Ok(d) => Some((d.as_secs(), d.subsec_nanos())),
        Err(_) => None,
    }
}

/// Relies on chrono's `DateTime::from_timestamp` and `DateTime::to_rfc3339`:
/// the instant as RFC 3339 text, which depends on the two numbers alone.
/// `from_timestamp` gives `None` only for a day outside chrono's date range
/// (years beyond 262142) or a nanosecond count it does not accept, so a
/// non-negative count of seconds up to 8e12 (about the year 255000) with
/// nanoseconds under one second is always accepted.
#[verifier::external_body]
fn rfc3339_at(secs: i64, nanos: u32) -> (r: Option<String>)
    ensures
        r matches Some(s) ==> s@ == rfc3339_of(secs as int, nanos as int),
        0 <= secs <= 8_000_000_000_000 && nanos < 1_000_000_000 ==> r is Some,
{
    match chrono::DateTime::from_timestamp(secs, nanos) {
        Some(d) => Some(d.to_rfc3339()),
        None => None,
    }
}

impl ProjectDocument {
    /// A new project document with the fixed defaults.
    pub fn new_document(name: String, created_at: String) -> (r: ProjectDocument)
        ensures
            r@ == fresh_project(name@, created_at@),
    {
        let r = ProjectDocument {
            name,
            version: String::from_str("1.0.0"),
            target_platform_version: String::from_str("1.20.1"),
            mods: Vec::new(),
            created_at,
        };
        assert(r@.mods =~= Seq::<Seq<char>>::empty());
        r
    }

    /// An independent copy of the document.
    pub fn snapshot(&self) -> (r: ProjectDocument)
        ensures
            r@ == self@,
    {
        let mut mods: Vec<String> = Vec::new();
        let mut i: usize = 0;
        while i < self.mods.len()
            invariant
                i <= self.mods@.len(),
                mods@ == self.mods@.subrange(0, i as int),
            decreases self.mods@.len() - i,
        {
            mods.push(self.mods[i].clone());
            assert(mods@ =~= self.mods@.subrange(0, i + 1));
            i = i + 1;
        }
        assert(mods@ =~= self.mods@);
        ProjectDocument {
            name: self.name.clone(),
            version: self.version.clone(),
            target_platform_version: self.target_platform_version.clone(),
            mods,
            created_at: self.created_at.clone(),
        }
    }

}

/// The file name proposed when a project document is saved: `<name>.soup`
/// for a document with a name, `project.soup` for one without.
pub fn project_file_name(name: Option<&str>) -> (r: String)
    ensures
        match name {
            Some(n) => r@ == n@ + ".soup"@,
            None => r@ == "project.soup"@,
        },
{
    match name {
        Some(n) => String::from_str(n).concat(".soup"),
        None => String::from_str("project.soup"),
    }
}

/// The file name proposed for the project document `data`, named by its
/// `name` field where that holds text.
pub fn project_file_name_of(data: &serde_json::Value) -> (r: String)
    ensures
        match text_field_of(*data, "name"@) {
            Some(n) => r@ == n + ".soup"@,
            None => r@ == "project.soup"@,
        },
{
    match text_field(data, "name") {
        Some(n) => project_file_name(Some(n.as_str())),
        None => project_file_name(None),
    }
}

/// Holds at most one current project.
pub struct ProjectSlot {
    current: Option<ProjectDocument>,
}

impl View for ProjectSlot {
    type V = Option<ProjectView>;

    closed spec fn view(&self) -> Option<ProjectView> {
        match self.current {
            Some(d) => Some(d@),
            None => None,
        }
    }
}

impl ProjectSlot {
    /// A slot with no current project.
    pub fn new() -> (r: ProjectSlot)
        ensures
            r@ == None::<ProjectView>,
    {
        ProjectSlot { current: None }
    }

    /// Creates a project named `name` at `created_at`, makes it current, and
    /// returns a copy of it.
    pub fn project_new_at(&mut self, name: String, created_at: String) -> (r: ProjectDocument)
        ensures
            r@ == fresh_project(name@, created_at@),
            final(self)@ == Some(r@),
    {
        let doc = ProjectDocument::new_document(name, created_at);
        let copy = doc.snapshot();
        self.current = Some(doc);
        copy
    }

    /// Creates a project named `name`, stamped with the clock reading
    /// `reading` (seconds and nanoseconds since 1970), makes it current, and
    /// returns a copy of it. Without a reading, or with one past the year
    /// 255000, nothing changes and `ClockUnavailable` comes back.
    pub fn project_new_from_reading(&mut self, name: String, reading: Option<(u64, u32)>) -> (r: Result<ProjectDocument, CoreError>)
        ensures
            match r {
                Ok(d) => {
                    &&& reading matches Some(t) && t.0 <= 8_000_000_000_000
                        && d@ == fresh_project(name@, rfc3339_of(t.0 as int, t.1 as int))
                    &&& final(self)@ == Some(d@)
                },
                Err(e) => e is ClockUnavailable && final(self)@ == old(self)@,
            },
            reading matches Some(t) && t.0 <= 8_000_000_000_000 && t.1 < 1_000_000_000 ==> r is Ok,
    {
        let (secs, nanos) = match reading {
            Some(t) => t,
            None => return Err(CoreError::ClockUnavailable),
        };
        if secs > 8_000_000_000_000 {
            return Err(CoreError::ClockUnavailable);
        }
        match rfc3339_at(secs as i64, nanos) {
            Some(created_at) => Ok(self.project_new_at(name, created_at)),
            None => Err(CoreError::ClockUnavailable),
        }
    }

    /// Creates a project named `name`, stamped with the time of the call,
    /// makes it current, and returns a copy of it. Where the clock gives no
    /// reading from 1970 on, nothing changes and `ClockUnavailable` comes back.
    pub fn project_new(&mut self, name: String) -> (r: Result<ProjectDocument, CoreError>)
        ensures
            match r {
                Ok(d) => {
                    &&& exists|secs: int, nanos: int|
                        0 <= secs && 0 <= nanos < 1_000_000_000
                            && d@ == fresh_project(name@, #[trigger] rfc3339_of(secs, nanos))
                    &&& final(self)@ == Some(d@)
                },
                Err(e) => e is ClockUnavailable && final(self)@ == old(self)@,
            },
    {
        let reading = clock_since_epoch();
        let r = self.project_new_from_reading(name, reading);
        proof {
            if r is Ok {
                let t = reading->Some_0;
                assert(0 <= t.0 && 0 <= t.1 < 1_000_000_000);
                assert(r->Ok_0@ == fresh_project(name@, rfc3339_of(t.0 as int, t.1 as int)));
            }
        }
        r
    }

    /// Makes `doc` the current project, replacing any other.
    pub fn set_current_project(&mut self, doc: ProjectDocument)
        ensures
            final(self)@ == with_current(old(self)@, doc@),
    {
        self.current = Some(doc);
    }

    /// A copy of the current project, if there is one.
    pub fn project_get_current(&self) -> (r: Option<ProjectDocument>)
        ensures
            match r {
                Some(d) => self@ == Some(d@),
                None => self@ is None,
            },
    {
        match &self.current {
            Some(d) => Some(d.snapshot()),
            None => None,
        }
    }
}

/// Making `x` and then `y` current leaves `y` current, whatever came before.
pub proof fn lemma_last_set_wins(before: Option<ProjectView>, x: ProjectView, y: ProjectView)
    ensures
        with_current(with_current(before, x), y) == Some(y),
{
}

} // verus!
