//! The HTTP clients that requests share, and whether they use the system's proxy.
use std::collections::HashMap;
use vstd::prelude::*;

verus! {

/// How a client is built. Times are in seconds.
#[derive(Clone, Copy, PartialEq, Eq, Structural, Debug)]
pub struct ClientSettings {
    pub connect_timeout: u64,
    pub pool_idle_timeout: u64,
    pub pool_max_idle_per_host: usize,
    pub tcp_keepalive: u64,
    /// Whether the system's proxy is passed over.
    pub no_proxy: bool,
}

/// How the shared client is built.
pub open spec fn shared_settings(no_proxy: bool) -> ClientSettings {
    ClientSettings {
        connect_timeout: 8,
        pool_idle_timeout: 90,
        pool_max_idle_per_host: 8,
        tcp_keepalive: 30,
        no_proxy,
    }
}

/// How the shared client is built: a connection is given up after eight seconds, and kept for a
/// minute and a half so that later requests can use it.
pub fn client_settings(no_proxy: bool) -> (r: ClientSettings)
    ensures
        r == shared_settings(no_proxy),
{
    ClientSettings {
        connect_timeout: 8,
        pool_idle_timeout: 90,
        pool_max_idle_per_host: 8,
        tcp_keepalive: 30,
        no_proxy,
    }
}

/// The clients that were built, each under a number and whether it passes over the proxy.
#[derive(Debug)]
pub struct Clients<C> {
    use_system_proxy: bool,
    direct: HashMap<u64, C>,
    proxied: HashMap<u64, C>,
}

impl<C> Clients<C> {
    /// Whether requests use the system's proxy.
    pub closed spec fn proxy(self) -> bool {
        self.use_system_proxy
    }

    /// The client under a key.
    pub closed spec fn held(self, key: (u64, bool)) -> Option<C> {
        let m = if key.1 {
            self.direct@
        } else {
            self.proxied@
        };
        if m.contains_key(key.0) {
            Some(m[key.0])
        } else {
            None
        }
    }

    /// No client is held.
    pub open spec fn empty(self) -> bool {
        forall|key: (u64, bool)| #[trigger] self.held(key) is None
    }

    /// No clients yet; the system's proxy is used.
    pub fn new() -> (r: Clients<C>)
        ensures
            r.proxy(),
            r.empty(),
    {
        Clients { use_system_proxy: true, direct: HashMap::new(), proxied: HashMap::new() }
    }

    /// Whether requests use the system's proxy.
    pub fn use_system_proxy(&self) -> (r: bool)
        ensures
            r == self.proxy(),
    {
        self.use_system_proxy
    }

    /// Says whether requests use the system's proxy. All clients are dropped, so that the next
    /// request already goes by it.
    pub fn set_use_system_proxy(&mut self, enabled: bool)
        ensures
            final(self).proxy() == enabled,
            final(self).empty(),
    {
        self.use_system_proxy = enabled;
        self.direct.clear();
        self.proxied.clear();
    }

    /// Whether there is no client.
    pub fn is_empty(&self) -> (r: bool)
        ensures
            r == self.empty(),
    {
        broadcast use vstd::std_specs::hash::group_hash_axioms;

        let r = self.direct.len() == 0 && self.proxied.len() == 0;
        proof {
            if r {
                assert(self.direct@.dom() =~= Set::empty());
                assert(self.proxied@.dom() =~= Set::empty());
            } else if self.direct@.dom().len() != 0 {
                let k = self.direct@.dom().choose();
                assert(self.direct@.dom().contains(k));
                assert(self.held((k, true)) is Some);
            } else {
                let k = self.proxied@.dom().choose();
                assert(self.proxied@.dom().contains(k));
                assert(self.held((k, false)) is Some);
            }
        }
        r
    }

    /// Whether there is a client under a key.
    pub fn contains_key(&self, key: (u64, bool)) -> (r: bool)
        ensures
            r == (self.held(key) is Some),
    {
        broadcast use vstd::std_specs::hash::group_hash_axioms;

        if key.1 {
            self.direct.contains_key(&key.0)
        } else {
            self.proxied.contains_key(&key.0)
        }
    }

    /// The key of the client that all requests share.
    pub open spec fn shared_key(self) -> (u64, bool) {
        (0u64, !self.proxy())
    }

    /// The key of the client that all requests share.
    pub fn http_key(&self) -> (r: (u64, bool))
        ensures
            r == self.shared_key(),
    {
        (0, !self.use_system_proxy)
    }
}

impl<C: Clone> Clients<C> {
    /// The client under a key, built only where there is none yet.
    pub fn cached_client<F: FnOnce() -> C>(&mut self, key: (u64, bool), build: F) -> (r: C)
        requires
            old(self).held(key) is None ==> build.requires(()),
        ensures
            final(self).proxy() == old(self).proxy(),
            forall|k: (u64, bool)| k != key ==> #[trigger] final(self).held(k) == old(self).held(k),
            match old(self).held(key) {
                Some(c) => final(self).held(key) == Some(c) && cloned(c, r),
                None => exists|c: C| #[trigger]
                    build.ensures((), c) && final(self).held(key) == Some(c) && cloned(c, r),
            },
    {
        broadcast use vstd::std_specs::hash::group_hash_axioms;

        if key.1 {
            match self.direct.get(&key.0) {
                Some(c) => {
                    return c.clone();
                },
                None => {},
            }
        } else {
            match self.proxied.get(&key.0) {
                Some(c) => {
                    return c.clone();
                },
                None => {},
            }
        }
        let c = build();
        let r = c.clone();
        if key.1 {
            self.direct.insert(key.0, c);
        } else {
            self.proxied.insert(key.0, c);
        }
        r
    }

    /// The client that all requests share, built where there is none yet for how the proxy is used.
    pub fn http<F: FnOnce() -> C>(&mut self, build: F) -> (r: C)
        requires
            old(self).held(old(self).shared_key()) is None ==> build.requires(()),
        ensures
            final(self).proxy() == old(self).proxy(),
            forall|k: (u64, bool)|
                k != old(self).shared_key() ==> #[trigger] final(self).held(k) == old(self).held(k),
            match old(self).held(old(self).shared_key()) {
                Some(c) => final(self).held(old(self).shared_key()) == Some(c) && cloned(c, r),
                None => exists|c: C| #[trigger]
                    build.ensures((), c) && final(self).held(old(self).shared_key()) == Some(c)
                        && cloned(c, r),
            },
    {
        let key: (u64, bool) = self.http_key();
        self.cached_client(key, build)
    }
}

/// The shared client passes over the proxy exactly where that is wanted, gives a connection up
/// after eight seconds, and asks for life on an idle one three times before it drops it.
pub proof fn law_shared_client_is_patient(no_proxy: bool)
    ensures
        shared_settings(no_proxy).no_proxy == no_proxy,
        shared_settings(no_proxy).connect_timeout == 8,
        shared_settings(no_proxy).pool_max_idle_per_host == 8,
        shared_settings(no_proxy).tcp_keepalive == 30,
        shared_settings(no_proxy).pool_idle_timeout == 3 * shared_settings(no_proxy).tcp_keepalive,
{
}

/// Requests share one client for how the proxy is used: the one that uses it is never taken where
/// it is to be passed over, nor the other way round.
pub proof fn law_proxy_is_not_mistaken<C>(a: Clients<C>, b: Clients<C>)
    ensures
        a.shared_key() == b.shared_key() <==> a.proxy() == b.proxy(),
        a.shared_key().1 <==> !a.proxy(),
{
}

} // verus!
