use corange_rs::collector::RenderObjectCollector;
use corange_rs::corange::{
    render_object, render_object_light, render_object_sphere, render_object_static, sphere,
    vec3_zero, Scalar,
};
use corange_rs::entity::EntityHandle;

#[test]
fn drain_yields_the_pushes_in_order() {
    let a = render_object_static(EntityHandle { slot: 3 });
    let b = render_object_light(EntityHandle { slot: 1 });
    let mut collector = RenderObjectCollector::new();
    collector.push(a);
    collector.push(b);
    assert_eq!(collector.len(), 2);
    assert_eq!(collector.drain(), vec![a, b]);
}

#[test]
fn a_second_drain_yields_nothing() {
    let mut collector = RenderObjectCollector::new();
    collector.push(render_object_static(EntityHandle { slot: 0 }));
    collector.push(render_object_light(EntityHandle { slot: 1 }));
    collector.drain();
    assert!(collector.is_empty());
    assert_eq!(collector.drain(), Vec::<render_object>::new());
}

#[test]
fn a_new_collector_is_empty() {
    let mut collector = RenderObjectCollector::new();
    assert!(collector.is_empty());
    assert_eq!(collector.len(), 0);
    assert_eq!(collector.drain(), Vec::<render_object>::new());
}

#[test]
fn equal_drawables_are_kept_apart() {
    let ball = render_object_sphere(sphere { center: vec3_zero(), radius: Scalar::from_bits(0x3f80_0000) });
    let mut collector = RenderObjectCollector::new();
    collector.push(ball);
    collector.push(ball);
    collector.push(ball);
    assert_eq!(collector.drain(), vec![ball, ball, ball]);
}

#[test]
fn pushes_after_a_drain_start_a_new_sequence() {
    let a = render_object_static(EntityHandle { slot: 0 });
    let b = render_object_static(EntityHandle { slot: 1 });
    let c = render_object_static(EntityHandle { slot: 2 });
    let mut collector = RenderObjectCollector::new();
    collector.push(a);
    assert_eq!(collector.drain(), vec![a]);
    collector.push(c);
    collector.push(b);
    assert_eq!(collector.drain(), vec![c, b]);
}

#[test]
fn clear_forgets_what_waits() {
    let mut collector = RenderObjectCollector::new();
    collector.push(render_object_static(EntityHandle { slot: 0 }));
    collector.clear();
    assert!(collector.is_empty());
    assert_eq!(collector.drain(), Vec::<render_object>::new());
}
