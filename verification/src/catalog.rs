//! The static schedule catalog: immutable route and stop lookup tables.

use vstd::prelude::*;

verus! {

/// One catalog row: an identifier and the display name the schedule gives
/// it, where it gives one.
pub struct CatalogEntry {
    pub id: String,
    pub display_name: Option<String>,
}

/// The schedule catalog, loaded once before the poll loop starts and only
/// read afterwards.  Lookups walk the tables front to back; the first entry
/// with a matching id answers, so a duplicated id behaves as a map that kept
/// the earlier insertion.
pub struct ScheduleCatalog {
    pub routes: Vec<CatalogEntry>,
    pub stops: Vec<CatalogEntry>,
}

/// The first entry of `entries` whose id reads `id`, if any.
pub open spec fn lookup_entry(entries: Seq<CatalogEntry>, id: Seq<char>) -> Option<CatalogEntry>
    decreases entries.len(),
{
    if entries.len() == 0 {
        None
    } else if entries.first().id@ == id {
        Some(entries.first())
    } else {
        lookup_entry(entries.drop_first(), id)
    }
}

/// The characters of an optional string, an absent one reading as empty.
pub open spec fn or_empty(s: Option<Seq<char>>) -> Seq<char> {
    match s {
        Some(chars) => chars,
        None => Seq::empty(),
    }
}

/// The view of an optional owned string.
pub open spec fn opt_view(o: Option<String>) -> Option<Seq<char>> {
    match o {
        Some(s) => Some(s@),
        None => None,
    }
}

/// The display name a train shows for a route id, with the full fallback
/// chain: no id at all, an id the catalog does not know, and a known route
/// without a usable display name each read as a fixed marker.  A display
/// name that is present but empty counts as unusable, so the label is
/// never empty.
pub open spec fn train_label_spec(routes: Seq<CatalogEntry>, route_id: Option<Seq<char>>) -> Seq<
    char,
> {
    match route_id {
        None => "<no route id>"@,
        Some(id) => match lookup_entry(routes, id) {
            None => "<no route found>"@,
            Some(entry) => match entry.display_name {
                None => "<no route name>"@,
                Some(name) => if name@.len() == 0 {
                    "<no route name>"@
                } else {
                    name@
                },
            },
        },
    }
}

/// The display name of a stop, an unknown or unnamed stop reading as empty.
pub open spec fn stop_name_spec(stops: Seq<CatalogEntry>, stop_id: Option<Seq<char>>) -> Seq<char> {
    match lookup_entry(stops, or_empty(stop_id)) {
        None => Seq::empty(),
        Some(entry) => or_empty(opt_view(entry.display_name)),
    }
}

/// Whether some string of `names` reads `s`.
pub open spec fn seq_contains_str(names: Seq<String>, s: Seq<char>) -> bool {
    exists|i: int| 0 <= i < names.len() && names[i]@ == s
}

/// The ids of the routes whose display name (an absent one reading as
/// empty) stands in `names`, in catalog order.
pub open spec fn matching_ids_spec(routes: Seq<CatalogEntry>, names: Seq<String>) -> Seq<String>
    decreases routes.len(),
{
    if routes.len() == 0 {
        Seq::empty()
    } else {
        let rest = matching_ids_spec(routes.drop_last(), names);
        if seq_contains_str(names, or_empty(opt_view(routes.last().display_name))) {
            rest.push(routes.last().id)
        } else {
            rest
        }
    }
}

/// A route id the catalog does not know always resolves to the fixed
/// not-found marker: never an empty label, and never a failure.
pub proof fn lemma_unknown_route_label(routes: Seq<CatalogEntry>, id: Seq<char>)
    requires
        lookup_entry(routes, id) is None,
    ensures
        train_label_spec(routes, Some(id)) == "<no route found>"@,
        train_label_spec(routes, Some(id)).len() > 0,
{
    reveal_strlit("<no route found>");
}

/// The fallback chain leaves no gap: whatever the catalog holds and
/// whatever the record carries, the resolved train label is never empty.
pub proof fn lemma_train_label_never_empty(routes: Seq<CatalogEntry>, route_id: Option<Seq<char>>)
    ensures
        train_label_spec(routes, route_id).len() > 0,
{
    reveal_strlit("<no route id>");
    reveal_strlit("<no route found>");
    reveal_strlit("<no route name>");
}

/// Whether `names` holds a string reading `s`.
pub(crate) fn contains_string(names: &Vec<String>, s: &String) -> (r: bool)
    ensures
        r == seq_contains_str(names@, s@),
{
    for i in 0..names.len()
        invariant
            forall|j: int| 0 <= j < i ==> names@[j]@ != s@,
    {
        let candidate: &String = &names[i];
        if candidate.eq(s) {
            return true;
        }
    }
    false
}

/// The index of the first entry of `entries` whose id reads `id`.
fn find_entry(entries: &Vec<CatalogEntry>, id: &String) -> (r: Option<usize>)
    ensures
        r is None <==> lookup_entry(entries@, id@) is None,
        r matches Some(i) ==> i < entries@.len() && Some(entries@[i as int]) == lookup_entry(
            entries@,
            id@,
        ),
{
    proof {
        assert(entries@.skip(0) =~= entries@);
    }
    for i in 0..entries.len()
        invariant
            lookup_entry(entries@.skip(i as int), id@) == lookup_entry(entries@, id@),
    {
        let candidate: &CatalogEntry = &entries[i];
        if candidate.id.eq(id) {
            return Some(i);
        }
        proof {
            assert(entries@.skip(i as int).drop_first() =~= entries@.skip(i + 1));
        }
    }
    None
}

impl ScheduleCatalog {
    /// An empty catalog, to be filled once at startup.
    pub fn new() -> (catalog: ScheduleCatalog)
        ensures
            catalog.routes@.len() == 0,
            catalog.stops@.len() == 0,
    {
        ScheduleCatalog { routes: Vec::new(), stops: Vec::new() }
    }

    /// Append one route row.
    pub fn add_route(&mut self, id: String, display_name: Option<String>)
        ensures
            final(self).routes@ == old(self).routes@.push(
                (CatalogEntry { id, display_name }),
            ),
            final(self).stops == old(self).stops,
    {
        self.routes.push(CatalogEntry { id, display_name });
    }

    /// Append one stop row.
    pub fn add_stop(&mut self, id: String, display_name: Option<String>)
        ensures
            final(self).stops@ == old(self).stops@.push(
                (CatalogEntry { id, display_name }),
            ),
            final(self).routes == old(self).routes,
    {
        self.stops.push(CatalogEntry { id, display_name });
    }

    /// The label a train shows for an optional route id, resolved through
    /// the route table with the full fallback chain; it is never empty.
    pub fn train_label(&self, route_id: &Option<String>) -> (label: String)
        ensures
            label@ == train_label_spec(self.routes@, opt_view(*route_id)),
            label@.len() > 0,
    {
        proof {
            lemma_train_label_never_empty(self.routes@, opt_view(*route_id));
        }
        match route_id {
            None => "<no route id>".to_owned(),
            Some(id) => match find_entry(&self.routes, id) {
                None => "<no route found>".to_owned(),
                Some(i) => match &self.routes[i].display_name {
                    None => "<no route name>".to_owned(),
                    Some(name) => {
                        if name.as_str().is_empty() {
                            "<no route name>".to_owned()
                        } else {
                            name.clone()
                        }
                    },
                },
            },
        }
    }

    /// The display name of an optional stop id, an unknown or unnamed stop
    /// reading as empty.
    pub fn stop_name(&self, stop_id: &Option<String>) -> (name: String)
        ensures
            name@ == stop_name_spec(self.stops@, opt_view(*stop_id)),
    {
        let key: String = match stop_id {
            Some(id) => id.clone(),
            None => String::new(),
        };
        match find_entry(&self.stops, &key) {
            None => String::new(),
            Some(i) => match &self.stops[i].display_name {
                None => String::new(),
                Some(name) => name.clone(),
            },
        }
    }

    /// Translate a whitelist of human-readable route names into the route
    /// ids the catalog actually holds; names the catalog does not know are
    /// dropped silently.
    pub fn route_ids_matching(&self, names: &Vec<String>) -> (ids: Vec<String>)
        ensures
            ids@ == matching_ids_spec(self.routes@, names@),
    {
        let mut ids: Vec<String> = Vec::new();
        for i in 0..self.routes.len()
            invariant
                ids@ == matching_ids_spec(self.routes@.take(i as int), names@),
        {
            let entry: &CatalogEntry = &self.routes[i];
            let display: String = match &entry.display_name {
                Some(name) => name.clone(),
                None => String::new(),
            };
            if contains_string(names, &display) {
                ids.push(entry.id.clone());
            }
            proof {
                assert(self.routes@.take(i + 1).drop_last() =~= self.routes@.take(i as int));
                assert(self.routes@.take(i + 1).last() == self.routes@[i as int]);
            }
        }
        proof {
            assert(self.routes@.take(self.routes@.len() as int) =~= self.routes@);
        }
        ids
    }
}

} // verus!
