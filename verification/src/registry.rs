//! The provider registry: an append-once catalog of data-source
//! descriptors, populated at startup and read-only afterwards. Lookup,
//! validation and duplicate detection are all stated over the sequence
//! of registered names.

use vstd::prelude::*;
use vstd::string::StringExecFns;
use crate::errors::ConfigError;
use crate::text::str_eq;

verus! {

/// One data source's descriptor. The factory that builds the live,
/// fetch-capable object reads its own credential from the environment
/// and lives with the unverified shell; the registry carries the data
/// that lookup, help text and diagnostics need.
#[derive(Debug, Clone)]
pub struct ProviderMetadata {
    /// Unique identifier, e.g. `stormglass`.
    pub name: String,
    /// Human-readable description for help text.
    pub description: String,
    /// Name of the environment variable holding the provider's API key.
    pub api_key_var: String,
}

/// The catalog itself: descriptors in registration order.
#[derive(Debug, Clone)]
pub struct Registry {
    pub providers: Vec<ProviderMetadata>,
}

/// The text that reports a duplicate registration: the colliding name,
/// then the earlier and the later registration's description and
/// credential variable.
pub open spec fn duplicate_message(earlier: ProviderMetadata, later: ProviderMetadata) -> Seq<
    char,
> {
    "FATAL: Duplicate provider name '"@ + later.name@
        + "' detected in registry!\nThis indicates a programming error where two provider modules registered with the same name.\nFirst registration: "@
        + earlier.description@ + " ("@ + earlier.api_key_var@ + ")\nSecond registration: "@
        + later.description@ + " ("@ + later.api_key_var@ + ")"@
}

impl Registry {
    /// The registered names, in registration order.
    pub open spec fn names(self) -> Seq<Seq<char>> {
        self.providers@.map_values(|m: ProviderMetadata| m.name@)
    }

    /// Whether some descriptor carries this name.
    pub open spec fn has_name(self, n: Seq<char>) -> bool {
        exists|i: int| 0 <= i < self.names().len() && self.names()[i] == n
    }

    /// Whether two descriptors collide on a name.
    pub open spec fn has_duplicate(self) -> bool {
        exists|i: int, j: int|
            0 <= i < j < self.names().len() && self.names()[i] == self.names()[j]
    }

    /// An empty registry.
    pub fn new() -> (r: Registry)
        ensures
            r.providers@ == Seq::<ProviderMetadata>::empty(),
    {
        Registry { providers: Vec::new() }
    }

    /// Append one descriptor. Registration cannot fail; collisions are
    /// caught afterwards by [`Registry::check_duplicates`].
    pub fn register(&mut self, meta: ProviderMetadata)
        ensures
            final(self).providers@ == old(self).providers@.push(meta),
    {
        self.providers.push(meta);
    }

    /// How many descriptors are registered.
    pub fn provider_count(&self) -> (r: usize)
        ensures
            r == self.providers@.len(),
    {
        self.providers.len()
    }

    /// Look a descriptor up by name; the first registered match wins.
    pub fn get_provider_metadata(&self, name: &str) -> (r: Option<&ProviderMetadata>)
        ensures
            r is Some <==> self.has_name(name@),
            r matches Some(m) ==> exists|i: int|
                0 <= i < self.providers@.len() && self.providers@[i] == *m && m.name@ == name@
                    && (forall|j: int| 0 <= j < i ==> self.names()[j] != name@),
    {
        let n = self.providers.len();
        let mut i: usize = 0;
        while i < n
            invariant
                n == self.providers@.len(),
                i <= n,
                forall|j: int| 0 <= j < i ==> self.names()[j] != name@,
            decreases n - i,
        {
            if str_eq(self.providers[i].name.as_str(), name) {
                proof {
                    assert(self.names()[i as int] == name@);
                }
                return Some(&self.providers[i]);
            }
            i = i + 1;
        }
        None
    }

    /// Every registered name, in registration order.
    pub fn all_provider_names(&self) -> (r: Vec<String>)
        ensures
            r.deep_view() == self.names(),
    {
        let n = self.providers.len();
        let mut out: Vec<String> = Vec::new();
        let mut i: usize = 0;
        while i < n
            invariant
                n == self.providers@.len(),
                i <= n,
                out@.len() == i,
                forall|j: int| 0 <= j < i ==> out@[j]@ == self.names()[j],
            decreases n - i,
        {
            out.push(self.providers[i].name.clone());
            i = i + 1;
        }
        proof {
            assert(out.deep_view() =~= self.names());
        }
        out
    }

    /// Every `(name, description)` pair, in registration order. The
    /// order equals registration order; it is not guaranteed to be
    /// stable across builds.
    pub fn all_provider_descriptions(&self) -> (r: Vec<(String, String)>)
        ensures
            r@.len() == self.providers@.len(),
            forall|i: int|
                0 <= i < r@.len() ==> r@[i].0@ == self.providers@[i].name@ && r@[i].1@
                    == self.providers@[i].description@,
    {
        let n = self.providers.len();
        let mut out: Vec<(String, String)> = Vec::new();
        let mut i: usize = 0;
        while i < n
            invariant
                n == self.providers@.len(),
                i <= n,
                out@.len() == i,
                forall|j: int|
                    0 <= j < i ==> out@[j].0@ == self.providers@[j].name@ && out@[j].1@
                        == self.providers@[j].description@,
            decreases n - i,
        {
            out.push((self.providers[i].name.clone(), self.providers[i].description.clone()));
            i = i + 1;
        }
        out
    }

    /// Check a provider name against the registry: `Ok` exactly when it
    /// is registered, otherwise the unknown-name error that lists every
    /// registered name.
    pub fn validate_provider_name(&self, name: &str) -> (r: Result<(), ConfigError>)
        ensures
            r is Ok <==> self.has_name(name@),
            !self.has_name(name@) ==> (r matches Err(
                ConfigError::UnknownProvider { name: n, available },
            ) && n@ == name@ && available.deep_view() == self.names()),
    {
        if self.get_provider_metadata(name).is_some() {
            Ok(())
        } else {
            Err(
                ConfigError::UnknownProvider {
                    name: String::from_str(name),
                    available: self.all_provider_names(),
                },
            )
        }
    }

    /// Resolve a name to its descriptor for instantiation. `Ok` exactly
    /// when the name is registered; the caller hands the descriptor to
    /// its factory. An unknown name yields the error that lists every
    /// registered name.
    pub fn create_provider(&self, name: &str) -> (r: Result<&ProviderMetadata, ConfigError>)
        ensures
            r is Ok <==> self.has_name(name@),
            r matches Ok(m) ==> m.name@ == name@,
            !self.has_name(name@) ==> (r matches Err(
                ConfigError::UnknownProvider { name: n, available },
            ) && n@ == name@ && available.deep_view() == self.names()),
    {
        match self.get_provider_metadata(name) {
            Some(m) => Ok(m),
            None => Err(
                ConfigError::UnknownProvider {
                    name: String::from_str(name),
                    available: self.all_provider_names(),
                },
            ),
        }
    }

    /// Scan for colliding names. A `Some` result is a startup-fatal
    /// integrity defect: the caller must abort the process with the
    /// returned message rather than continue with an ambiguous catalog.
    pub fn check_duplicates(&self) -> (r: Option<String>)
        ensures
            r is Some <==> self.has_duplicate(),
            r matches Some(msg) ==> exists|i: int, j: int|
                0 <= i < j < self.names().len() && self.names()[i] == self.names()[j] && msg@
                    == duplicate_message(self.providers@[i], self.providers@[j]),
    {
        let n = self.providers.len();
        if n < 2 {
            return None;
        }
        let mut j: usize = 1;
        while j < n
            invariant
                n == self.providers@.len(),
                1 <= j <= n,
                forall|a: int, b: int| 0 <= a < b < j ==> self.names()[a] != self.names()[b],
            decreases n - j,
        {
            let mut i: usize = 0;
            while i < j
                invariant
                    n == self.providers@.len(),
                    j < n,
                    i <= j,
                    forall|a: int| 0 <= a < i ==> self.names()[a] != self.names()[j as int],
                decreases j - i,
            {
                if str_eq(self.providers[i].name.as_str(), self.providers[j].name.as_str()) {
                    proof {
                        assert(self.names()[i as int] == self.names()[j as int]);
                    }
                    return Some(self.duplicate_report(i, j));
                }
                i = i + 1;
            }
            j = j + 1;
        }
        None
    }

    /// Build the duplicate-registration message for entries `i < j`.
    fn duplicate_report(&self, i: usize, j: usize) -> (r: String)
        requires
            i < self.providers@.len(),
            j < self.providers@.len(),
        ensures
            r@ == duplicate_message(self.providers@[i as int], self.providers@[j as int]),
    {
        let earlier = &self.providers[i];
        let later = &self.providers[j];
        let mut msg = String::from_str("FATAL: Duplicate provider name '");
        msg.append(later.name.as_str());
        msg.append(
            "' detected in registry!\nThis indicates a programming error where two provider modules registered with the same name.\nFirst registration: ",
        );
        msg.append(earlier.description.as_str());
        msg.append(" (");
        msg.append(earlier.api_key_var.as_str());
        msg.append(")\nSecond registration: ");
        msg.append(later.description.as_str());
        msg.append(" (");
        msg.append(later.api_key_var.as_str());
        msg.append(")");
        proof {
            assert(msg@ =~= duplicate_message(
                self.providers@[i as int],
                self.providers@[j as int],
            ));
        }
        msg
    }
}

/// The help lines for the provider flag: one `name: description` entry
/// per registered provider, joined under a fixed heading.
pub open spec fn help_joined(s: Seq<ProviderMetadata>) -> Seq<char>
    decreases s.len(),
{
    if s.len() == 0 {
        Seq::empty()
    } else if s.len() == 1 {
        s[0].name@ + ": "@ + s[0].description@
    } else {
        help_joined(s.drop_last()) + "\n  "@ + s.last().name@ + ": "@ + s.last().description@
    }
}

/// Build the help text for the provider argument: the plain line when
/// nothing is registered, else the heading followed by one indented
/// `name: description` line per provider, in registration order.
pub fn get_provider_help(registry: &Registry) -> (r: String)
    ensures
        registry.providers@.len() == 0 ==> r@ == "Weather forecast provider to use"@,
        registry.providers@.len() > 0 ==> r@
            == "Weather forecast provider to use\nAvailable providers:\n  "@ + help_joined(
            registry.providers@,
        ),
{
    let n = registry.providers.len();
    if n == 0 {
        return String::from_str("Weather forecast provider to use");
    }
    let mut out = String::from_str("Weather forecast provider to use\nAvailable providers:\n  ");
    let ghost prefix = out@;
    let mut i: usize = 0;
    while i < n
        invariant
            n == registry.providers@.len(),
            0 < n,
            i <= n,
            prefix == "Weather forecast provider to use\nAvailable providers:\n  "@,
            i == 0 ==> out@ == prefix,
            i > 0 ==> out@ == prefix + help_joined(registry.providers@.take(i as int)),
        decreases n - i,
    {
        if i > 0 {
            out.append("\n  ");
        }
        out.append(registry.providers[i].name.as_str());
        out.append(": ");
        out.append(registry.providers[i].description.as_str());
        proof {
            assert(registry.providers@.take(i + 1).drop_last() =~= registry.providers@.take(
                i as int,
            ));
            assert(registry.providers@.take(i + 1).last() == registry.providers@[i as int]);
            assert(out@ =~= prefix + help_joined(registry.providers@.take(i + 1)));
        }
        i = i + 1;
    }
    proof {
        assert(registry.providers@.take(n as int) =~= registry.providers@);
    }
    out
}

} // verus!
