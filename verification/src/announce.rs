//! Announcements: the local instance passes an activity on to its followers,
//! and takes in what other instances announce.

use crate::activities::{activity_verified, AnnouncableActivities};
use crate::context::{find_local_instance, IbisContext, Store};
use crate::db_url::{url_parts, DbUrl, UrlParts};
use crate::newtypes::PersonId;
use crate::error::{BackendError, BackendResult};
use crate::instance::Instance;
use crate::kinds::{public, public_parts, AnnounceType};
use crate::records::{Person, SentActivity};
use crate::time::now_micros;
use vstd::prelude::*;
use vstd::string::StringExecFns;

verus! {

/// Passes an activity on to the followers of the instance that sends it.
#[derive(Debug)]
pub struct AnnounceActivity {
    pub actor: DbUrl,
    pub to: Vec<DbUrl>,
    pub cc: Vec<DbUrl>,
    pub object: AnnouncableActivities,
    pub kind: AnnounceType,
    pub id: DbUrl,
}

/// An announcement that is ready to be sent, the inboxes that it goes to,
/// and the followers that it cannot reach.
#[derive(Debug)]
pub struct Delivery {
    pub activity: AnnounceActivity,
    /// The inbox of every follower whose inbox is a URL, in the order of the followers.
    pub inboxes: Vec<DbUrl>,
    /// The followers whose inbox is no URL, in their order.
    pub undeliverable: Vec<PersonId>,
}

/// The address of an instance's collection of followers, as a text.
pub open spec fn followers_text(instance: Instance) -> Seq<char> {
    instance.ap_id.text@ + "/followers"@
}

/// The views of a list of URLs.
pub open spec fn url_views(list: Seq<DbUrl>) -> Seq<UrlParts> {
    list.map_values(|u: DbUrl| u@)
}

/// The inboxes of those among the first `n` persons whose inbox is a URL, in
/// the order of the persons.
pub open spec fn inboxes_upto(persons: Seq<Person>, n: int) -> Seq<UrlParts>
    decreases n,
{
    if n <= 0 {
        Seq::empty()
    } else {
        let before = inboxes_upto(persons, n - 1);
        match url_parts(persons[n - 1].inbox_url@) {
            Some(u) => before.push(u),
            None => before,
        }
    }
}

/// Those among the first `n` persons whose inbox is no URL, in their order.
pub open spec fn unreachable_upto(persons: Seq<Person>, n: int) -> Seq<PersonId>
    decreases n,
{
    if n <= 0 {
        Seq::empty()
    } else {
        let before = unreachable_upto(persons, n - 1);
        match url_parts(persons[n - 1].inbox_url@) {
            Some(u) => before,
            None => before.push(persons[n - 1].id),
        }
    }
}

/// Why an instance cannot announce, if it cannot: `InvalidUrl` where the
/// address of its followers is no URL.
pub open spec fn announce_refusal(local: Instance) -> Option<BackendError> {
    if url_parts(followers_text(local)) is None {
        Some(BackendError::InvalidUrl)
    } else {
        None
    }
}

impl Store {
    /// Why this instance cannot announce to its followers, if it cannot:
    /// `NotFound` without a row of this instance itself, `InvalidUrl` where
    /// the address of its followers is no URL.
    pub open spec fn announce_refusal(self) -> Option<BackendError> {
        match self.local_instance() {
            None => Some(BackendError::NotFound),
            Some(local) => announce_refusal(local),
        }
    }

    /// The store after an activity with this identifier was logged as sent at
    /// the time `now`.
    pub open spec fn log_sent(self, id: DbUrl, now: i64) -> Store {
        Store {
            sent_activities: self.sent_activities.push(SentActivity { id, published: now }),
            ..self
        }
    }
}

/// Whether a delivery is the announcement of an activity by the local instance.
pub open spec fn is_announcement(
    d: Delivery,
    object: AnnouncableActivities,
    id: DbUrl,
    local: Instance,
    followers: Seq<Person>,
) -> bool {
    &&& d.activity.actor == local.ap_id
    &&& d.activity.to@.len() == 1
    &&& d.activity.to@[0]@ == public_parts()
    &&& d.activity.cc@.len() == 1
    &&& Some(d.activity.cc@[0]@) == url_parts(followers_text(local))
    &&& d.activity.object == object
    &&& d.activity.kind == AnnounceType::Announce
    &&& d.activity.id == id
    &&& url_views(d.inboxes@) == inboxes_upto(followers, followers.len() as int)
    &&& d.undeliverable@ == unreachable_upto(followers, followers.len() as int)
}

/// Best-effort delivery. Every follower whose inbox is a URL has that inbox
/// among those that an announcement goes to, whatever the inboxes of the
/// other followers are.
pub proof fn lemma_reachable_follower_is_served(followers: Seq<Person>, k: int, n: int)
    requires
        0 <= k < n <= followers.len(),
        url_parts(followers[k].inbox_url@) is Some,
    ensures
        inboxes_upto(followers, n).contains(url_parts(followers[k].inbox_url@)->0),
    decreases n,
{
    let before = inboxes_upto(followers, n - 1);
    let inbox = url_parts(followers[k].inbox_url@)->0;
    if k == n - 1 {
        assert(before.push(inbox)[before.len() as int] == inbox);
    } else {
        lemma_reachable_follower_is_served(followers, k, n - 1);
        let w = choose|i: int| 0 <= i < before.len() && before[i] == inbox;
        match url_parts(followers[n - 1].inbox_url@) {
            Some(u) => {
                assert(before.push(u)[w] == inbox);
            },
            None => {},
        }
    }
}

impl AnnounceActivity {
    /// The announcement of an activity by an instance under the identifier
    /// `id`: addressed to everybody, with the instance as actor and its
    /// followers in copy, to be delivered to the inbox of each follower in
    /// `followers`. A follower whose inbox is no URL is passed over and named
    /// among the undeliverable: that holds up neither the other followers nor
    /// the announcement. Fails with `InvalidUrl` where the address of the
    /// instance's followers is no URL.
    pub fn new(
        object: AnnouncableActivities,
        id: DbUrl,
        local: &Instance,
        followers: &Vec<Person>,
    ) -> (r: BackendResult<Delivery>)
        ensures
            match r {
                Ok(d) => announce_refusal(*local) is None && is_announcement(
                    d,
                    object,
                    id,
                    *local,
                    followers@,
                ),
                Err(e) => announce_refusal(*local) == Some(e),
            },
    {
        let actor = local.ap_id.clone();
        let followers_url = match DbUrl::parse(
            local.ap_id.text.clone().concat("/followers").as_str(),
        ) {
            Ok(u) => u,
            Err(e) => {
                return Err(e);
            },
        };
        let mut inboxes: Vec<DbUrl> = Vec::new();
        let mut undeliverable: Vec<PersonId> = Vec::new();
        let mut i: usize = 0;
        assert(url_views(inboxes@) =~= Seq::<UrlParts>::empty());
        while i < followers.len()
            invariant
                i <= followers.len(),
                url_views(inboxes@) == inboxes_upto(followers@, i as int),
                undeliverable@ == unreachable_upto(followers@, i as int),
            decreases followers.len() - i,
        {
            let ghost before = url_views(inboxes@);
            match followers[i].try_inbox_url() {
                Ok(u) => {
                    inboxes.push(u);
                    assert(url_views(inboxes@) =~= before.push(u@));
                },
                Err(_) => {
                    undeliverable.push(followers[i].id);
                },
            }
            i += 1;
        }
        let mut to: Vec<DbUrl> = Vec::new();
        to.push(public());
        let mut cc: Vec<DbUrl> = Vec::new();
        cc.push(followers_url);
        Ok(
            Delivery {
                activity: AnnounceActivity {
                    actor,
                    to,
                    cc,
                    object,
                    kind: AnnounceType::Announce,
                    id,
                },
                inboxes,
                undeliverable,
            },
        )
    }

    /// Makes the announcement of an activity by this instance to its
    /// followers, as [`AnnounceActivity::new`] does, and enters it in the
    /// outbox log under the time `now`. Fails with `NotFound` without a row of
    /// this instance itself. Where no announcement can be made, nothing is
    /// logged.
    pub fn send(object: AnnouncableActivities, id: DbUrl, now: i64, context: &mut IbisContext)
        -> (r: BackendResult<Delivery>)
        ensures
            old(context)@.wf() ==> final(context)@.wf(),
            match r {
                Ok(d) => {
                    &&& old(context)@.announce_refusal() is None
                    &&& old(context)@.local_instance() matches Some(local) && is_announcement(
                        d,
                        object,
                        id,
                        local,
                        old(context)@.followers(local.id),
                    )
                    &&& final(context)@ == old(context)@.log_sent(id, now)
                },
                Err(e) => {
                    &&& old(context)@.announce_refusal() == Some(e)
                    &&& final(context)@ == old(context)@
                },
            },
    {
        let local = match find_local_instance(&context.instances) {
            Some(k) => &context.instances[k],
            None => {
                return Err(BackendError::NotFound);
            },
        };
        let followers = match Instance::read_followers(local.id, context) {
            Ok(f) => f,
            Err(e) => {
                return Err(e);
            },
        };
        let entry = SentActivity { id: id.clone(), published: now };
        let delivery = match AnnounceActivity::new(object, id, local, &followers) {
            Ok(d) => d,
            Err(e) => {
                return Err(e);
            },
        };
        context.sent_activities.push(entry);
        Ok(delivery)
    }

    /// The identifier of the announcement.
    pub fn id(&self) -> (id: &DbUrl)
        ensures
            *id == self.id,
    {
        &self.id
    }

    /// The instance that announces.
    pub fn actor(&self) -> (actor: &DbUrl)
        ensures
            *actor == self.actor,
    {
        &self.actor
    }

    /// Verifies the activity that the announcement carries: the
    /// announcement is accepted exactly where that activity is. Reads the
    /// store and writes nothing.
    pub fn verify(&self, context: &IbisContext) -> (r: BackendResult<()>)
        ensures
            r == activity_verified(self.object, context@.domain),
    {
        self.object.verify(context)
    }

    /// Takes in an announcement at the time `now`: verifies the activity that
    /// it carries and, where that succeeds, applies it. Where the activity is
    /// refused, nothing is written.
    pub fn receive_at(self, now: i64, context: &mut IbisContext) -> (r: BackendResult<()>)
        requires
            old(context)@.wf(),
        ensures
            final(context)@.wf(),
            final(context)@ == old(context)@.handle_activity(self.object, now).0,
            r == old(context)@.handle_activity(self.object, now).1,
    {
        self.object.handle_at(now, context)
    }

    /// Takes in an announcement now: as [`AnnounceActivity::receive_at`] at
    /// the time that the clock gives.
    pub fn receive(self, context: &mut IbisContext) -> (r: BackendResult<()>)
        requires
            old(context)@.wf(),
        ensures
            final(context)@.wf(),
            exists|now: i64|
                {
                    &&& now >= 0
                    &&& final(context)@ == (#[trigger] old(context)@.handle_activity(
                        self.object,
                        now,
                    )).0
                    &&& r == old(context)@.handle_activity(self.object, now).1
                },
    {
        let now = now_micros();
        self.receive_at(now, context)
    }
}

} // verus!
