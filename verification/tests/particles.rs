use pong::geometry::Vec2;
use pong::model::{Model, RenderContext};
use pong::opengl::{
    Attribute, Buffer, BufferType, GlCall, Real, ShaderProgram, Texture, TextureType, Uniform,
    VertexArray,
};
use pong::particles::{age_particle, create_sparks, Particle, ParticleSystem, SPARK_LIFE};

fn still(x: i64, y: i64) -> (Vec2, Vec2, Vec2) {
    (Vec2 { x, y }, Vec2 { x: 0, y: 0 }, Vec2 { x: 0, y: 0 })
}

#[test]
fn new_pool_is_empty() {
    let pool = ParticleSystem::new(100);
    assert_eq!(pool.len(), 0);
    assert_eq!(pool.max_particles(), 100);
    assert_eq!(pool.get(0), None);
}

#[test]
fn add_appends_in_order() {
    let mut pool = ParticleSystem::new(3);
    pool.add(Vec2 { x: 1, y: 2 }, Vec2 { x: 3, y: 4 }, Vec2 { x: 5, y: 6 }, 70);
    pool.add(Vec2 { x: -1, y: -2 }, Vec2 { x: -3, y: -4 }, Vec2 { x: -5, y: -6 }, 80);
    assert_eq!(pool.len(), 2);
    assert_eq!(
        pool.get(0),
        Some(Particle {
            position: Vec2 { x: 1, y: 2 },
            velocity: Vec2 { x: 3, y: 4 },
            acceleration: Vec2 { x: 5, y: 6 },
            life: 70,
            total_life: 70,
        })
    );
    assert_eq!(
        pool.get(1),
        Some(Particle {
            position: Vec2 { x: -1, y: -2 },
            velocity: Vec2 { x: -3, y: -4 },
            acceleration: Vec2 { x: -5, y: -6 },
            life: 80,
            total_life: 80,
        })
    );
    assert_eq!(pool.get(2), None);
}

#[test]
fn add_beyond_capacity_is_dropped() {
    let mut pool = ParticleSystem::new(100);
    for i in 0..150 {
        let (p, v, a) = still(i, 0);
        pool.add(p, v, a, 1000);
        assert!(pool.len() <= 100);
    }
    assert_eq!(pool.len(), 100);
    assert_eq!(pool.get(0).unwrap().position.x, 0);
    assert_eq!(pool.get(99).unwrap().position.x, 99);
}

#[test]
fn pool_of_no_capacity_stays_empty() {
    let mut pool = ParticleSystem::new(0);
    let (p, v, a) = still(0, 0);
    pool.add(p, v, a, 10);
    assert_eq!(pool.len(), 0);
    create_sparks(&mut pool, 0, 0, 1_000_000, 0);
    assert_eq!(pool.len(), 0);
    pool.update(1);
    assert_eq!(pool.len(), 0);
}

#[test]
fn update_moves_by_velocity_and_acceleration() {
    let mut pool = ParticleSystem::new(10);
    pool.add(
        Vec2 { x: 10, y: -10 },
        Vec2 { x: 0, y: 4_000 },
        Vec2 { x: 2_000_000, y: -8_000 },
        1000,
    );
    pool.update(500);
    assert_eq!(
        pool.get(0),
        Some(Particle {
            position: Vec2 { x: 10 + 500_000, y: -10 },
            velocity: Vec2 { x: 1_000_000, y: 0 },
            acceleration: Vec2 { x: 2_000_000, y: -8_000 },
            life: 500,
            total_life: 1000,
        })
    );
}

#[test]
fn update_rounds_toward_zero() {
    let p = Particle {
        position: Vec2 { x: 0, y: 0 },
        velocity: Vec2 { x: -1_999, y: 1_999 },
        acceleration: Vec2 { x: 0, y: 0 },
        life: 10,
        total_life: 10,
    };
    let q = age_particle(p, 1);
    assert_eq!(q.position, Vec2 { x: -1, y: 1 });
    assert_eq!(q.velocity, Vec2 { x: -1_999, y: 1_999 });
    let q = age_particle(p, -1);
    assert_eq!(q.position, Vec2 { x: 1, y: -1 });
    assert_eq!(q.life, 11);
}

#[test]
fn update_stops_at_the_largest_numbers() {
    let p = Particle {
        position: Vec2 { x: i64::MAX, y: i64::MIN },
        velocity: Vec2 { x: i64::MAX, y: i64::MIN },
        acceleration: Vec2 { x: i64::MAX, y: i64::MIN },
        life: i32::MIN,
        total_life: 5,
    };
    let q = age_particle(p, i64::MAX);
    assert_eq!(q.velocity, Vec2 { x: i64::MAX, y: i64::MIN });
    assert_eq!(q.position, Vec2 { x: i64::MAX, y: i64::MIN });
    assert_eq!(q.life, i32::MIN);
    assert_eq!(q.total_life, 5);
    let q = age_particle(p, i64::MIN);
    assert_eq!(q.velocity, Vec2 { x: i64::MIN, y: i64::MAX });
    assert_eq!(q.life, i32::MAX);
}

#[test]
fn update_removes_particles_without_life() {
    let mut pool = ParticleSystem::new(10);
    for life in [100, 50, 101, 1, 200] {
        let (p, v, a) = still(life as i64, 0);
        pool.add(p, v, a, life);
    }
    pool.update(100);
    assert_eq!(pool.len(), 2);
    assert_eq!(pool.get(0).unwrap().position.x, 101);
    assert_eq!(pool.get(0).unwrap().life, 1);
    assert_eq!(pool.get(1).unwrap().position.x, 200);
    assert_eq!(pool.get(1).unwrap().life, 100);
    assert_eq!(pool.max_particles(), 10);
    pool.update(1);
    assert_eq!(pool.len(), 1);
    assert_eq!(pool.get(0).unwrap().total_life, 200);
}

#[test]
fn update_never_adds_a_particle() {
    let mut pool = ParticleSystem::new(50);
    for i in 0..50 {
        let (p, v, a) = still(0, 0);
        pool.add(p, v, a, i * 7 % 40);
    }
    let mut before = pool.len();
    for delta in [0, 1, 5, -3, 10, 100] {
        pool.update(delta);
        assert!(pool.len() <= before);
        before = pool.len();
        for i in 0..pool.len() {
            assert!(pool.get(i).unwrap().life > 0);
        }
    }
    assert_eq!(pool.len(), 0);
}

#[test]
fn particle_added_without_life_goes_at_the_next_update() {
    let mut pool = ParticleSystem::new(5);
    let (p, v, a) = still(0, 0);
    pool.add(p, v, a, 0);
    pool.add(p, v, a, -5);
    assert_eq!(pool.len(), 2);
    pool.update(0);
    assert_eq!(pool.len(), 0);
}

#[test]
fn room_is_free_again_after_a_sweep() {
    let mut pool = ParticleSystem::new(2);
    let (p, v, a) = still(0, 0);
    pool.add(p, v, a, 10);
    pool.add(p, v, a, 20);
    pool.add(p, v, a, 30);
    assert_eq!(pool.len(), 2);
    pool.update(10);
    assert_eq!(pool.len(), 1);
    pool.add(p, v, a, 30);
    assert_eq!(pool.len(), 2);
    assert_eq!(pool.get(0).unwrap().total_life, 20);
    assert_eq!(pool.get(1).unwrap().total_life, 30);
}

#[test]
fn sparks_for_an_impact_along_x() {
    let mut pool = ParticleSystem::new(100);
    create_sparks(&mut pool, 0, 0, 1_000_000, 0);
    assert_eq!(pool.len(), 8);
    for k in 0..8 {
        let spark = pool.get(k).unwrap();
        assert_eq!(spark.total_life, 100);
        assert_eq!(spark.life, SPARK_LIFE);
        assert_eq!(spark.position, Vec2 { x: 0, y: 0 });
        assert_eq!(spark.acceleration, Vec2 { x: 0, y: 0 });
    }
    let expected = [
        (100_000, -1_000_000),
        (100_000, 1_000_000),
        (200_000, -1_000_000),
        (200_000, 1_000_000),
        (300_000, -1_000_000),
        (300_000, 1_000_000),
        (400_000, -1_000_000),
        (400_000, 1_000_000),
    ];
    for (k, (x, y)) in expected.iter().enumerate() {
        assert_eq!(pool.get(k).unwrap().velocity, Vec2 { x: *x, y: *y });
    }
}

#[test]
fn sparks_for_a_slanted_impact() {
    let mut pool = ParticleSystem::new(100);
    create_sparks(&mut pool, 7, -9, -25, 15);
    assert_eq!(pool.len(), 8);
    let expected = [
        (15 - 2, 25 + 1),
        (-15 - 2, -25 + 1),
        (15 - 5, 25 + 3),
        (-15 - 5, -25 + 3),
        (15 - 7, 25 + 4),
        (-15 - 7, -25 + 4),
        (15 - 10, 25 + 6),
        (-15 - 10, -25 + 6),
    ];
    for (k, (x, y)) in expected.iter().enumerate() {
        let spark = pool.get(k).unwrap();
        assert_eq!(spark.position, Vec2 { x: 7, y: -9 });
        assert_eq!(spark.velocity, Vec2 { x: *x, y: *y });
    }
}

#[test]
fn sparks_fill_what_room_there_is() {
    let mut pool = ParticleSystem::new(5);
    let (p, v, a) = still(1, 1);
    pool.add(p, v, a, 1000);
    pool.add(p, v, a, 1000);
    create_sparks(&mut pool, 0, 0, 10, 0);
    assert_eq!(pool.len(), 5);
    assert_eq!(pool.get(1).unwrap().total_life, 1000);
    assert_eq!(pool.get(2).unwrap().velocity, Vec2 { x: 1, y: -10 });
    assert_eq!(pool.get(3).unwrap().velocity, Vec2 { x: 1, y: 10 });
    assert_eq!(pool.get(4).unwrap().velocity, Vec2 { x: 2, y: -10 });
}

#[test]
fn sparks_of_an_extreme_impact_stop_at_the_largest_numbers() {
    let mut pool = ParticleSystem::new(8);
    create_sparks(&mut pool, 0, 0, i64::MIN, i64::MAX);
    assert_eq!(pool.len(), 8);
    assert_eq!(
        pool.get(0).unwrap().velocity,
        Vec2 { x: i64::MAX - 922_337_203_685_477_580, y: i64::MAX }
    );
    assert_eq!(
        pool.get(1).unwrap().velocity,
        Vec2 { x: i64::MIN, y: i64::MIN + 922_337_203_685_477_580 }
    );
}

#[test]
fn pool_is_drawn_with_one_binding() {
    let ctx = RenderContext {
        program: ShaderProgram(1),
        position: VertexArray(Attribute(5)),
        texcoord: VertexArray(Attribute(6)),
        offset: Uniform(7),
        sampler: Uniform(8),
        opacity: Uniform(9),
    };
    let model = Model {
        vertex_buffer: Buffer(3, BufferType::Array),
        num_vertices: 12,
        texture: Texture(4, TextureType::Texture2D),
        extent: Vec2 { x: 1, y: 1 },
    };
    let mut pool = ParticleSystem::new(10);
    pool.add(Vec2 { x: 11, y: 12 }, Vec2 { x: 0, y: 0 }, Vec2 { x: 0, y: 0 }, 100);
    pool.add(Vec2 { x: 21, y: 22 }, Vec2 { x: 0, y: 0 }, Vec2 { x: 0, y: 0 }, 40);
    pool.update(30);
    let mut calls = Vec::new();
    pool.render(&model, &ctx, &mut calls);

    let zero = Real { numerator: 0, denominator: 1 };
    let at = |v: i64| Real { numerator: v, denominator: 1_000_000 };
    let draw = GlCall::DrawArrays { array_type: 4, offset: 0, count: 3 };
    assert_eq!(
        calls,
        vec![
            GlCall::BindBuffer { buffer_type: 34962, buffer: 3 },
            GlCall::ActiveTexture { unit: 33984 },
            GlCall::BindTexture { target: 3553, texture: 4 },
            GlCall::VertexAttribPointer {
                location: 5,
                size: 2,
                data_type: 5126,
                normalize: 0,
                stride: 16,
                offset: 0,
            },
            GlCall::VertexAttribPointer {
                location: 6,
                size: 2,
                data_type: 5126,
                normalize: 0,
                stride: 16,
                offset: 8,
            },
            GlCall::Uniform1i { location: 8, value: 0 },
            GlCall::Uniform1f { location: 9, x: Real { numerator: 1, denominator: 1 } },
            GlCall::Uniform4f { location: 7, x: at(11), y: at(12), z: zero, w: zero },
            GlCall::Uniform1f { location: 9, x: Real { numerator: 70, denominator: 100 } },
            draw,
            GlCall::Uniform4f { location: 7, x: at(21), y: at(22), z: zero, w: zero },
            GlCall::Uniform1f { location: 9, x: Real { numerator: 10, denominator: 40 } },
            draw,
        ]
    );
}

#[test]
fn empty_pool_is_bound_and_not_drawn() {
    let ctx = RenderContext::new(ShaderProgram::new(1), 5, 6, 7, 8, 9);
    let model = Model {
        vertex_buffer: Buffer(3, BufferType::Array),
        num_vertices: 12,
        texture: Texture(4, TextureType::Texture2D),
        extent: Vec2 { x: 1, y: 1 },
    };
    let pool = ParticleSystem::new(10);
    let mut calls = Vec::new();
    pool.render(&model, &ctx, &mut calls);
    assert_eq!(calls.len(), 7);
    assert!(!calls.iter().any(|c| matches!(c, GlCall::DrawArrays { .. })));
}
