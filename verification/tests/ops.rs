use glium::gl;
use glium::ops::blit::{plan_blit, BlitMethod};
use glium::ops::clear::{
    clear_depth_function, clear_flags, framebuffer_srgb_update, scissor_update, ClearDepthFunction,
    ScissorBox,
};
use glium::version::{Api, Backend, Capabilities, ExtensionsList, Version};
use glium::{BlitTarget, Rect};

fn backend(api: Api, major: u8, minor: u8) -> Backend {
    Backend {
        version: Version(api, major, minor),
        extensions: ExtensionsList::default(),
        capabilities: Capabilities {
            max_color_attachments: 8,
            max_draw_buffers: 8,
            max_framebuffer_width: None,
            max_framebuffer_height: None,
            max_framebuffer_layers: None,
            max_framebuffer_samples: None,
            max_patch_vertices: None,
        },
    }
}

#[test]
fn blit_corners_and_method() {
    let src = Rect { left: 10, bottom: 20, width: 30, height: 40 };
    let dst = BlitTarget { left: 100, bottom: 50, width: -30, height: 40 };
    let plan = plan_blit(&backend(Api::Gl, 3, 3), &src, &dst);
    assert_eq!(plan.method, BlitMethod::Regular);
    assert_eq!((plan.src_x0, plan.src_y0, plan.src_x1, plan.src_y1), (10, 20, 40, 60));
    assert_eq!((plan.dst_x0, plan.dst_y0, plan.dst_x1, plan.dst_y1), (100, 50, 70, 90));
    assert_eq!(plan_blit(&backend(Api::Gl, 4, 5), &src, &dst).method, BlitMethod::Named);
    assert_eq!(plan_blit(&backend(Api::Gl, 2, 1), &src, &dst).method, BlitMethod::Ext);
    assert_eq!(plan_blit(&backend(Api::GlEs, 3, 0), &src, &dst).method, BlitMethod::Ext);
}

#[test]
fn clear_masks() {
    assert_eq!(clear_flags(false, false, false), 0);
    assert_eq!(clear_flags(true, false, false), gl::COLOR_BUFFER_BIT);
    assert_eq!(clear_flags(true, true, false), gl::COLOR_BUFFER_BIT | gl::DEPTH_BUFFER_BIT);
    assert_eq!(
        clear_flags(true, true, true),
        gl::COLOR_BUFFER_BIT | gl::DEPTH_BUFFER_BIT | gl::STENCIL_BUFFER_BIT
    );
    assert_eq!(clear_flags(false, false, true), 0x400);
    assert_eq!(clear_flags(false, true, true), 0x500);
}

#[test]
fn clear_srgb_switch() {
    let gl3 = backend(Api::Gl, 3, 0);
    assert_eq!(framebuffer_srgb_update(&gl3, false, false), Some(true));
    assert_eq!(framebuffer_srgb_update(&gl3, true, true), Some(false));
    assert_eq!(framebuffer_srgb_update(&gl3, true, false), None);
    assert_eq!(framebuffer_srgb_update(&gl3, false, true), None);
    let es2 = backend(Api::GlEs, 2, 0);
    assert_eq!(framebuffer_srgb_update(&es2, false, false), None);
    let mut es2_ext = es2.clone();
    es2_ext.extensions.gl_ext_srgb_write_control = true;
    assert_eq!(framebuffer_srgb_update(&es2_ext, false, false), Some(true));
}

#[test]
fn clear_scissor() {
    let rect = Rect { left: 1, bottom: 2, width: 3, height: 4 };
    let b = ScissorBox { left: 1, bottom: 2, width: 3, height: 4 };
    let u = scissor_update(false, None, Some(&rect));
    assert!(u.set_box);
    assert_eq!(u.scissor_box, b);
    assert_eq!(u.enable, Some(true));
    let u = scissor_update(true, Some(b), Some(&rect));
    assert!(!u.set_box);
    assert_eq!(u.enable, None);
    let other = ScissorBox { left: 0, bottom: 2, width: 3, height: 4 };
    assert!(scissor_update(true, Some(other), Some(&rect)).set_box);
    let u = scissor_update(true, Some(b), None);
    assert!(!u.set_box);
    assert_eq!(u.enable, Some(false));
    assert_eq!(scissor_update(false, None, None).enable, None);
}

#[test]
fn clear_depth_entry_point() {
    assert_eq!(clear_depth_function(&Version(Api::Gl, 1, 0)), ClearDepthFunction::ClearDepth);
    assert_eq!(clear_depth_function(&Version(Api::GlEs, 2, 0)), ClearDepthFunction::ClearDepthf);
}

#[test]
fn clear_srgb_setting_is_stable() {
    let gl3 = backend(Api::Gl, 3, 0);
    let first = framebuffer_srgb_update(&gl3, false, false);
    assert_eq!(first, Some(true));
    assert_eq!(framebuffer_srgb_update(&gl3, first.unwrap(), false), None);
    let first = framebuffer_srgb_update(&gl3, true, true);
    assert_eq!(framebuffer_srgb_update(&gl3, first.unwrap(), true), None);
}
