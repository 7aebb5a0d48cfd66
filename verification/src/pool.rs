use vstd::prelude::*;

use crate::container::{is_sandbox_name, Container, ContainerV};
use crate::language::Language;
use crate::{sandbox_prefix, spec_has_prefix, str_has_prefix};

verus! {

/// The pool's cache of idle sandbox containers. A container sits here only
/// while no in-flight execution is bound to it; one exclusive lock around the
/// whole pool (held by the caller, never across a daemon call) guards the
/// scan-and-splice.
pub struct ContainerPool {
    pub containers: Vec<Container>,
}

impl View for ContainerPool {
    type V = Seq<ContainerV>;

    open spec fn view(&self) -> Seq<ContainerV> {
        self.containers.deep_view()
    }
}

/// What an acquire found: a pooled idle container matching the requested
/// image, or nothing, in which case the caller creates a fresh container
/// synchronously. After a hit the caller also creates one replacement for
/// the same profile asynchronously and inserts it once ready.
pub enum PoolDecision {
    Hit(Container),
    Miss,
}

/// Whether an idle container can serve a request for `image`: it is bound to
/// a profile with that same image.
pub open spec fn matches_image(c: ContainerV, image: Seq<char>) -> bool {
    c.language matches Some(l) && l.image == image
}

/// Whether position `i` holds the first container in `pool` bound to `image`.
pub open spec fn first_image_match(pool: Seq<ContainerV>, image: Seq<char>, i: int) -> bool {
    &&& 0 <= i < pool.len()
    &&& matches_image(pool[i], image)
    &&& forall|j: int| 0 <= j < i ==> !matches_image(#[trigger] pool[j], image)
}

impl ContainerPool {
    /// An empty pool.
    pub fn new() -> (p: Self)
        ensures
            p@ == Seq::<ContainerV>::empty(),
    {
        let p = ContainerPool { containers: Vec::new() };
        proof {
            assert(p@ =~= Seq::<ContainerV>::empty());
        }
        p
    }

    /// Scans the idle list for the first container whose bound profile has
    /// the requested profile's image. On a hit that container leaves the
    /// idle list and is returned; on a miss the list is unchanged and the
    /// caller creates a brand-new container instead.
    pub fn get_container(&mut self, language: &Language) -> (d: PoolDecision)
        ensures
            match d {
                PoolDecision::Hit(c) => {
                    &&& exists|i: int|
                        #[trigger] first_image_match(old(self)@, language@.image, i) && c@ == old(
                            self,
                        )@[i] && final(self)@ == old(self)@.remove(i)
                    &&& c@.language matches Some(l) && l.image == language@.image
                },
                PoolDecision::Miss => {
                    &&& final(self)@ == old(self)@
                    &&& forall|i: int|
                        0 <= i < old(self)@.len() ==> !matches_image(
                            #[trigger] old(self)@[i],
                            language@.image,
                        )
                },
            },
    {
        let n = self.containers.len();
        for i in 0..n
            invariant
                n == self.containers.len(),
                self.containers@ == old(self).containers@,
                forall|j: int| 0 <= j < i ==> !matches_image(#[trigger] self@[j], language@.image),
        {
            let hit = match &self.containers[i].language {
                Some(l) => l.image.eq(&language.image),
                None => false,
            };
            if hit {
                proof {
                    assert(matches_image(self@[i as int], language@.image));
                    assert(first_image_match(self@, language@.image, i as int));
                }
                let c = self.containers.remove(i);
                proof {
                    assert(self@ =~= old(self)@.remove(i as int));
                }
                return PoolDecision::Hit(c);
            }
        }
        proof {
            assert(self@ =~= old(self)@);
        }
        PoolDecision::Miss
    }

    /// Inserts an idle container into the pool: used to prewarm a profile by
    /// hand and to return a replenishment container once the daemon has
    /// created it.
    pub fn add_container(&mut self, container: Container)
        ensures
            final(self)@ == old(self)@.push(container@),
    {
        self.containers.push(container);
        proof {
            assert(self@ =~= old(self)@.push(container@));
        }
    }
}

/// One row of the daemon's container listing, as plain values: the
/// daemon-assigned id and the names the daemon reports, each name carrying a
/// leading separator.
pub struct ListedContainer {
    pub id: Option<String>,
    pub names: Option<Vec<String>>,
}

/// Mathematical model of a listing row.
#[verifier::ext_equal]
pub struct ListedContainerV {
    pub id: Option<Seq<char>>,
    pub names: Option<Seq<Seq<char>>>,
}

impl View for ListedContainer {
    type V = ListedContainerV;

    open spec fn view(&self) -> ListedContainerV {
        ListedContainerV {
            id: match self.id {
                Some(s) => Some(s@),
                None => None,
            },
            names: match self.names {
                Some(ns) => Some(ns.deep_view()),
                None => None,
            },
        }
    }
}

impl DeepView for ListedContainer {
    type V = ListedContainerV;

    open spec fn deep_view(&self) -> ListedContainerV {
        self.view()
    }
}

/// A listed name that identifies a sandbox container: the daemon's leading
/// separator followed by the fixed sandbox prefix.
pub open spec fn listed_sandbox_name(n: Seq<char>) -> bool {
    spec_has_prefix(n, seq!['/'] + sandbox_prefix())
}

/// Law: the naming convention is the only signal the sweep uses, and it is
/// kept — every name carrying the sandbox prefix is recognised once the
/// daemon lists it behind its leading separator.
pub proof fn lemma_sandbox_name_swept(n: Seq<char>)
    requires
        is_sandbox_name(n),
    ensures
        listed_sandbox_name(seq!['/'] + n),
{
    assert((seq!['/'] + n).subrange(0, (seq!['/'] + sandbox_prefix()).len() as int) =~= seq!['/']
        + sandbox_prefix());
}

/// Whether a listing row belongs to an orphaned sandbox container the sweep
/// must remove: it has an id, and one of its names carries the sandbox
/// prefix.
pub open spec fn is_sweep_target(e: ListedContainerV) -> bool {
    &&& e.id is Some
    &&& e.names matches Some(ns) && exists|j: int| 0 <= j < ns.len() && listed_sandbox_name(
        #[trigger] ns[j],
    )
}

/// The ids the sweep removes, in listing order.
pub open spec fn sweep_ids(entries: Seq<ListedContainerV>) -> Seq<Seq<char>>
    decreases entries.len(),
{
    if entries.len() == 0 {
        Seq::empty()
    } else {
        sweep_ids(entries.drop_last()) + (if is_sweep_target(entries.last()) {
            seq![entries.last().id->Some_0]
        } else {
            Seq::empty()
        })
    }
}

/// Whether one of the row's names identifies a sandbox container.
fn has_sandbox_name(names: &Vec<String>) -> (r: bool)
    ensures
        r == exists|j: int|
            0 <= j < names.deep_view().len() && listed_sandbox_name(#[trigger] names.deep_view()[j]),
{
    let n = names.len();
    for j in 0..n
        invariant
            n == names.len(),
            forall|k: int| 0 <= k < j ==> !listed_sandbox_name(#[trigger] names.deep_view()[k]),
    {
        if str_has_prefix(names[j].as_str(), "/dockerbot-") {
            proof {
                reveal_strlit("/dockerbot-");
                reveal_strlit("dockerbot-");
                assert(("/dockerbot-")@ =~= seq!['/'] + sandbox_prefix());
                assert(listed_sandbox_name(names.deep_view()[j as int]));
            }
            return true;
        }
        proof {
            reveal_strlit("/dockerbot-");
            reveal_strlit("dockerbot-");
            assert(("/dockerbot-")@ =~= seq!['/'] + sandbox_prefix());
        }
    }
    false
}

/// The crash-recovery pass over the daemon's container listing: every row
/// whose name carries the sandbox prefix is selected for stop-and-remove, in
/// order; rows without an id or without names are passed over. Per-container
/// daemon failures are the caller's to log; they do not abort the sweep.
pub fn sweep_targets(listing: &Vec<ListedContainer>) -> (ids: Vec<String>)
    ensures
        ids.deep_view() == sweep_ids(listing.deep_view()),
{
    let mut ids: Vec<String> = Vec::new();
    let n = listing.len();
    for i in 0..n
        invariant
            n == listing.len(),
            ids.deep_view() == sweep_ids(listing.deep_view().take(i as int)),
    {
        let target = match &listing[i].names {
            Some(ns) => has_sandbox_name(ns),
            None => false,
        };
        proof {
            assert(target == is_sweep_target(listing.deep_view()[i as int]) || (target
                && listing.deep_view()[i as int].id is None));
        }
        if target {
            match &listing[i].id {
                Some(id) => {
                    ids.push(id.clone());
                },
                None => (),
            }
        }
        proof {
            let ghost pre = listing.deep_view().take(i as int);
            assert(listing.deep_view().take(i + 1).drop_last() =~= pre);
            assert(listing.deep_view().take(i + 1).last() == listing.deep_view()[i as int]);
            assert(ids.deep_view() =~= sweep_ids(listing.deep_view().take(i + 1)));
        }
    }
    proof {
        assert(listing.deep_view().take(n as int) =~= listing.deep_view());
    }
    ids
}

} // verus!
