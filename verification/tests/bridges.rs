use liquidfun::box2d::common::draw::DrawFlags;
use liquidfun::box2d::dynamics::contacts::contact::Contact;
use liquidfun::box2d::dynamics::fixture::Fixture;
use liquidfun::box2d::dynamics::world::{ContactListenerHandle, DebugDraw};
use liquidfun::box2d::dynamics::world_callbacks::{
    ContactListener, ContantListenerTrait_BeginContact, ContantListenerTrait_EndContact,
    QueryCallback, QueryCallbackTrait_ReportFixture,
};

#[derive(Debug, Default, PartialEq)]
struct Recorder {
    touching: bool,
    begun: Vec<usize>,
    ended: Vec<usize>,
}

impl ContactListener for Recorder {
    fn begin_contact(&mut self, contact: &mut Contact) {
        self.touching = true;
        self.begun.push(contact.ptr);
    }

    fn end_contact(&mut self, contact: &mut Contact) {
        self.touching = false;
        self.ended.push(contact.ptr);
    }
}

struct Picky {
    seen: Vec<usize>,
    wanted: usize,
}

impl QueryCallback for Picky {
    fn report_fixture(&mut self, fixture: &mut Fixture) -> bool {
        self.seen.push(fixture.get_ptr());
        self.seen.len() < self.wanted
    }
}

#[derive(Debug, PartialEq)]
struct Canvas {
    scale: u32,
}

#[test]
fn begin_contact_reaches_the_listener_with_the_contact_named() {
    let mut listener = Recorder::default();
    ContantListenerTrait_BeginContact(&mut listener, 0xc0);
    assert!(listener.touching);
    assert_eq!(listener.begun, vec![0xc0]);
    assert!(listener.ended.is_empty());
}

#[test]
fn end_contact_reaches_the_listener_with_the_contact_named() {
    let mut listener = Recorder::default();
    listener.touching = true;
    ContantListenerTrait_EndContact(&mut listener, 0xc1);
    assert!(!listener.touching);
    assert_eq!(listener.ended, vec![0xc1]);
    assert!(listener.begun.is_empty());
}

#[test]
fn each_dispatch_is_one_call() {
    let mut listener = Recorder::default();
    ContantListenerTrait_BeginContact(&mut listener, 1);
    ContantListenerTrait_BeginContact(&mut listener, 2);
    ContantListenerTrait_EndContact(&mut listener, 1);
    ContantListenerTrait_BeginContact(&mut listener, 3);
    ContantListenerTrait_EndContact(&mut listener, 3);
    assert_eq!(listener.begun, vec![1, 2, 3]);
    assert_eq!(listener.ended, vec![1, 3]);
}

#[test]
fn report_fixture_hands_back_the_observers_answer() {
    let mut eager = Picky { seen: vec![], wanted: 3 };
    assert!(QueryCallbackTrait_ReportFixture(&mut eager, 0xf1));
    assert!(QueryCallbackTrait_ReportFixture(&mut eager, 0xf2));
    assert!(!QueryCallbackTrait_ReportFixture(&mut eager, 0xf3));
    assert_eq!(eager.seen, vec![0xf1, 0xf2, 0xf3]);
}

#[test]
fn query_stops_after_the_first_false() {
    // What the engine does with the answer: it visits the candidates in
    // turn and stops at the first `false`.
    let candidates = [0xf1usize, 0xf2, 0xf3, 0xf4];
    let mut observer = Picky { seen: vec![], wanted: 1 };
    for candidate in candidates {
        if !QueryCallbackTrait_ReportFixture(&mut observer, candidate) {
            break;
        }
    }
    assert_eq!(observer.seen, vec![0xf1]);
}

#[test]
fn query_visits_every_candidate_while_the_answer_is_true() {
    let candidates = [0xf1usize, 0xf2, 0xf3, 0xf4];
    let mut observer = Picky { seen: vec![], wanted: 10 };
    for candidate in candidates {
        if !QueryCallbackTrait_ReportFixture(&mut observer, candidate) {
            break;
        }
    }
    assert_eq!(observer.seen, vec![0xf1, 0xf2, 0xf3, 0xf4]);
}

#[test]
fn new_contact_listener_bridge_has_no_proxy() {
    let handle = ContactListenerHandle::new(Recorder::default());
    assert_eq!(handle.ptr(), 0);
}

#[test]
fn bind_hands_the_proxy_over() {
    let mut handle = ContactListenerHandle::new(Recorder::default());
    assert_eq!(handle.bind(0xa0), None);
    assert_eq!(handle.ptr(), 0xa0);
}

#[test]
fn bind_gives_back_the_proxy_it_replaces() {
    let mut handle = ContactListenerHandle::new(Recorder::default());
    handle.bind(0xa0);
    assert_eq!(handle.bind(0xa1), Some(0xa0));
    assert_eq!(handle.ptr(), 0xa1);
    assert_eq!(handle.bind(0), Some(0xa1));
    assert_eq!(handle.ptr(), 0);
    assert_eq!(handle.bind(0xa2), None);
}

#[test]
fn bind_of_the_proxy_already_owned_gives_nothing_back() {
    let mut handle = ContactListenerHandle::new(Recorder::default());
    assert_eq!(handle.bind(0xa0), None);
    assert_eq!(handle.bind(0xa0), None);
    assert_eq!(handle.ptr(), 0xa0);
    assert_eq!(handle.release(), Some(0xa0));
    assert_eq!(handle.bind(0), None);
}

#[test]
fn get_returns_the_value_the_bridge_was_made_from() {
    let mut handle = ContactListenerHandle::new(Recorder {
        touching: true,
        begun: vec![7],
        ended: vec![],
    });
    handle.bind(0xa0);
    assert_eq!(*handle.get(), Recorder { touching: true, begun: vec![7], ended: vec![] });
}

#[test]
fn what_a_callback_changes_is_seen_through_get() {
    let mut handle = ContactListenerHandle::new(Recorder::default());
    handle.bind(0xa0);
    handle.get().touching = false;
    ContantListenerTrait_BeginContact(handle.get(), 0xc0);
    assert!(handle.get().touching);
    assert_eq!(handle.get().begun, vec![0xc0]);
    ContantListenerTrait_EndContact(handle.get(), 0xc0);
    assert!(!handle.get().touching);
    assert_eq!(handle.get().ended, vec![0xc0]);
    assert_eq!(handle.ptr(), 0xa0);
}

#[test]
fn what_is_changed_through_get_is_seen_by_the_next_callback() {
    let mut handle = ContactListenerHandle::new(Recorder::default());
    handle.get().begun.push(1);
    ContantListenerTrait_BeginContact(handle.get(), 2);
    assert_eq!(handle.get().begun, vec![1, 2]);
}

#[test]
fn contact_listener_proxy_is_released_exactly_once() {
    let mut handle = ContactListenerHandle::new(Recorder::default());
    handle.bind(0xa0);
    assert_eq!(handle.release(), Some(0xa0));
    assert_eq!(handle.ptr(), 0);
    assert_eq!(handle.release(), None);
    assert_eq!(handle.release(), None);
}

#[test]
fn release_without_a_proxy_releases_nothing() {
    let mut handle = ContactListenerHandle::new(Recorder::default());
    assert_eq!(handle.release(), None);
}

#[test]
fn release_leaves_the_listener_in_place() {
    let mut handle = ContactListenerHandle::new(Recorder::default());
    handle.bind(0xa0);
    ContantListenerTrait_BeginContact(handle.get(), 0xc0);
    handle.release();
    assert_eq!(handle.get().begun, vec![0xc0]);
}

#[test]
fn listener_comes_back_after_the_proxy_is_gone() {
    let mut handle = ContactListenerHandle::new(Recorder::default());
    handle.bind(0xa0);
    ContantListenerTrait_BeginContact(handle.get(), 0xc0);
    assert_eq!(handle.release(), Some(0xa0));
    let listener = handle.into_inner();
    assert_eq!(listener, Recorder { touching: true, begun: vec![0xc0], ended: vec![] });
}

#[test]
fn new_debug_draw_bridge_has_no_proxy_and_draws_nothing() {
    let mut handle = DebugDraw::new(Canvas { scale: 1 });
    assert_eq!(handle.ptr(), 0);
    assert_eq!(handle.get_flags(), 0);
}

#[test]
fn debug_draw_get_gives_the_renderer() {
    let mut handle = DebugDraw::new(Canvas { scale: 1 });
    handle.bind(0xd0);
    handle.get().scale = 10;
    assert_eq!(*handle.get(), Canvas { scale: 10 });
    assert_eq!(handle.ptr(), 0xd0);
    assert_eq!(handle.get_flags(), 0);
}

#[test]
fn append_then_clear_flags() {
    let mut handle = DebugDraw::new(Canvas { scale: 1 });
    handle.append_flags(DrawFlags::ShapeBit.bits());
    handle.append_flags(DrawFlags::JointBit.bits());
    assert_eq!(handle.get_flags(), DrawFlags::ShapeBit.bits() | DrawFlags::JointBit.bits());
    assert_eq!(handle.get_flags(), 0x0003);
    handle.clear_flags(DrawFlags::ShapeBit.bits());
    assert_eq!(handle.get_flags(), DrawFlags::JointBit.bits());
    assert_eq!(handle.get_flags(), 0x0002);
}

#[test]
fn set_flags_replaces_the_flags() {
    let mut handle = DebugDraw::new(Canvas { scale: 1 });
    handle.append_flags(0x0030);
    handle.set_flags(DrawFlags::AabbBit.bits());
    assert_eq!(handle.get_flags(), 0x0004);
    handle.set_flags(!0);
    assert_eq!(handle.get_flags(), 0xffff_ffff);
    handle.set_flags(0);
    assert_eq!(handle.get_flags(), 0);
}

#[test]
fn append_flags_keeps_what_is_set() {
    let mut handle = DebugDraw::new(Canvas { scale: 1 });
    handle.set_flags(0x0011);
    handle.append_flags(0x0003);
    assert_eq!(handle.get_flags(), 0x0013);
    handle.append_flags(0x0003);
    assert_eq!(handle.get_flags(), 0x0013);
    handle.append_flags(0);
    assert_eq!(handle.get_flags(), 0x0013);
}

#[test]
fn clear_flags_leaves_the_others() {
    let mut handle = DebugDraw::new(Canvas { scale: 1 });
    handle.set_flags(0x003f);
    handle.clear_flags(0x0028);
    assert_eq!(handle.get_flags(), 0x0017);
    handle.clear_flags(0x0028);
    assert_eq!(handle.get_flags(), 0x0017);
    handle.clear_flags(0);
    assert_eq!(handle.get_flags(), 0x0017);
    handle.clear_flags(!0);
    assert_eq!(handle.get_flags(), 0);
}

#[test]
fn flags_keep_bits_of_no_category() {
    let mut handle = DebugDraw::new(Canvas { scale: 1 });
    handle.set_flags(0x8000_0040);
    handle.append_flags(DrawFlags::ParticleBit.bits());
    assert_eq!(handle.get_flags(), 0x8000_0060);
    handle.clear_flags(0x0000_0040);
    assert_eq!(handle.get_flags(), 0x8000_0020);
}

#[test]
fn flags_do_not_touch_renderer_or_proxy() {
    let mut handle = DebugDraw::new(Canvas { scale: 3 });
    handle.bind(0xd0);
    handle.set_flags(0x0001);
    handle.append_flags(0x0002);
    handle.clear_flags(0x0001);
    assert_eq!(handle.ptr(), 0xd0);
    assert_eq!(*handle.get(), Canvas { scale: 3 });
}

#[test]
fn debug_draw_bind_gives_back_the_proxy_it_replaces() {
    let mut handle = DebugDraw::new(Canvas { scale: 1 });
    assert_eq!(handle.bind(0xd0), None);
    handle.set_flags(0x0005);
    assert_eq!(handle.bind(0xd1), Some(0xd0));
    assert_eq!(handle.ptr(), 0xd1);
    assert_eq!(handle.get_flags(), 0x0005);
}

#[test]
fn debug_draw_bind_of_the_proxy_already_owned_gives_nothing_back() {
    let mut handle = DebugDraw::new(Canvas { scale: 1 });
    assert_eq!(handle.bind(0xd0), None);
    assert_eq!(handle.bind(0xd0), None);
    assert_eq!(handle.ptr(), 0xd0);
    assert_eq!(handle.bind(0), Some(0xd0));
    assert_eq!(handle.bind(0), None);
}

#[test]
fn debug_draw_proxy_is_released_exactly_once() {
    let mut handle = DebugDraw::new(Canvas { scale: 1 });
    handle.bind(0xd0);
    handle.set_flags(0x0003);
    assert_eq!(handle.release(), Some(0xd0));
    assert_eq!(handle.ptr(), 0);
    assert_eq!(handle.release(), None);
    assert_eq!(handle.get_flags(), 0x0003);
}

#[test]
fn renderer_comes_back_after_the_proxy_is_gone() {
    let mut handle = DebugDraw::new(Canvas { scale: 1 });
    handle.bind(0xd0);
    handle.get().scale = 4;
    assert_eq!(handle.release(), Some(0xd0));
    assert_eq!(handle.into_inner(), Canvas { scale: 4 });
}
