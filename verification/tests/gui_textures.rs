use goshenite::renderer::gui_pass::texture_registry::{
    GuiPrimitive, GuiTextures, ImageDeltaInfo, RegisteredTexture, TextureEvent, TextureId, UpdateTexturesPlan,
};
use goshenite::renderer::gui_pass::{
    texture_submissions_required, GuiRendererError, ProcessTextureDataReturn, TextureFilter, TextureOptions,
};

fn options(magnification: TextureFilter, minification: TextureFilter) -> TextureOptions {
    TextureOptions { magnification, minification }
}

fn texture(desc_set: u64, image_view: u64, options: TextureOptions) -> RegisteredTexture {
    RegisteredTexture { desc_set, image_view, options }
}

#[test]
fn registered_textures_are_read_back() {
    let mut textures = GuiTextures::new();
    assert_eq!(textures.registered(TextureId::Managed(0)), None);
    let font = texture(11, 21, options(TextureFilter::Linear, TextureFilter::Nearest));
    let user = texture(12, 22, options(TextureFilter::Nearest, TextureFilter::Linear));
    textures.register_texture(TextureId::Managed(0), font);
    textures.register_texture(TextureId::User(0), user);
    assert_eq!(textures.registered(TextureId::Managed(0)), Some(font));
    assert_eq!(textures.registered(TextureId::User(0)), Some(user));
    assert_eq!(textures.registered(TextureId::Managed(1)), None);
    let replacement = texture(13, 23, options(TextureFilter::Nearest, TextureFilter::Nearest));
    textures.register_texture(TextureId::Managed(0), replacement);
    assert_eq!(textures.registered(TextureId::Managed(0)), Some(replacement));
}

#[test]
fn freed_descriptor_sets_are_reused_last_first() {
    let mut textures = GuiTextures::new();
    assert_eq!(textures.get_new_font_texture_desc_set(), None);
    let linear = options(TextureFilter::Linear, TextureFilter::Linear);
    textures.register_texture(TextureId::Managed(1), texture(101, 201, linear));
    textures.register_texture(TextureId::Managed(2), texture(102, 202, linear));
    textures.register_texture(TextureId::Managed(3), texture(103, 203, linear));
    textures.unregister_images(&vec![TextureId::Managed(1), TextureId::Managed(9), TextureId::Managed(3)]);
    assert_eq!(textures.registered(TextureId::Managed(1)), None);
    assert_eq!(textures.registered(TextureId::Managed(3)), None);
    assert_eq!(textures.registered(TextureId::Managed(2)), Some(texture(102, 202, linear)));
    assert_eq!(textures.get_new_font_texture_desc_set(), Some(103));
    textures.unregister_image(TextureId::Managed(2));
    assert_eq!(textures.get_new_font_texture_desc_set(), Some(102));
    assert_eq!(textures.get_new_font_texture_desc_set(), Some(101));
    assert_eq!(textures.get_new_font_texture_desc_set(), None);
}

#[test]
fn sampler_is_rewritten_only_for_changed_options() {
    let mut textures = GuiTextures::new();
    let nearest = options(TextureFilter::Nearest, TextureFilter::Nearest);
    let linear = options(TextureFilter::Linear, TextureFilter::Linear);
    assert_eq!(textures.check_and_update_sampler(linear, TextureId::User(4)), None);
    textures.register_texture(TextureId::User(4), texture(7, 8, nearest));
    assert_eq!(textures.check_and_update_sampler(nearest, TextureId::User(4)), None);
    assert_eq!(textures.check_and_update_sampler(linear, TextureId::User(4)), Some(texture(7, 8, nearest)));
    // the registered options stay those of registration
    assert_eq!(textures.check_and_update_sampler(linear, TextureId::User(4)), Some(texture(7, 8, nearest)));
}

#[test]
fn meshes_are_drawn_with_their_texture() {
    let mut textures = GuiTextures::new();
    let linear = options(TextureFilter::Linear, TextureFilter::Linear);
    textures.register_texture(TextureId::Managed(0), texture(31, 41, linear));
    assert_eq!(textures.mesh_desc_set(0, 6, TextureId::Managed(0)), Ok(None));
    assert_eq!(textures.mesh_desc_set(4, 0, TextureId::User(5)), Ok(None));
    assert_eq!(textures.mesh_desc_set(4, 6, TextureId::Managed(0)), Ok(Some(31)));
    assert_eq!(
        textures.mesh_desc_set(4, 6, TextureId::User(5)),
        Err(GuiRendererError::TextureDescSetMissing { id: TextureId::User(5) })
    );
}

#[test]
fn texture_batch_plans_see_earlier_changes() {
    let mut textures = GuiTextures::new();
    let linear = options(TextureFilter::Linear, TextureFilter::Linear);
    textures.register_texture(TextureId::Managed(0), texture(1, 2, linear));
    let set = |id, byte_count, update_position_given| {
        TextureEvent::SetImage(ImageDeltaInfo { texture_id: id, byte_count, update_position_given })
    };
    let events = vec![
        set(TextureId::Managed(0), 16, true),
        TextureEvent::FreeTexture(TextureId::Managed(0)),
        set(TextureId::Managed(0), 16, true),
        set(TextureId::User(1), 16, false),
        set(TextureId::User(1), 16, true),
        set(TextureId::User(2), 0, false),
    ];
    let nothing = ProcessTextureDataReturn {
        uses_staging_buffer: false,
        new_image_commands_recorded: false,
        existing_image_commands_recorded: false,
    };
    let update = ProcessTextureDataReturn {
        uses_staging_buffer: true,
        new_image_commands_recorded: false,
        existing_image_commands_recorded: true,
    };
    let create = ProcessTextureDataReturn {
        uses_staging_buffer: true,
        new_image_commands_recorded: true,
        existing_image_commands_recorded: false,
    };
    let plans = textures.plan_texture_events(&events);
    assert_eq!(plans, vec![update, nothing, nothing, create, update, nothing]);
    assert_eq!(texture_submissions_required(&plans), (true, true));
    assert_eq!(textures.plan_texture_events(&Vec::new()), Vec::new());
}

#[test]
fn empty_texture_update_does_nothing() {
    let mut textures = GuiTextures::new();
    let events = vec![TextureEvent::SetImage(ImageDeltaInfo { texture_id: TextureId::User(3), byte_count: 4, update_position_given: false })];
    let UpdateTexturesPlan { begin_upload, plans, submit_creation, submit_update } = textures.update_textures_plan(0, &Vec::new());
    assert!(!begin_upload && plans.is_empty() && !submit_creation && !submit_update);
    let plan = textures.update_textures_plan(1, &events);
    assert!(plan.begin_upload && plan.submit_creation && !plan.submit_update);
    assert_eq!(plan.plans.len(), 1);
    textures.register_texture(TextureId::User(3), texture(1, 2, options(TextureFilter::Linear, TextureFilter::Linear)));
    let nothing_set = textures.update_textures_plan(2, &vec![TextureEvent::FreeTexture(TextureId::User(3))]);
    assert!(nothing_set.begin_upload && !nothing_set.submit_creation && !nothing_set.submit_update);
}

#[test]
fn gui_meshes_are_drawn_in_order_until_a_texture_is_missing() {
    let mut textures = GuiTextures::new();
    let linear = options(TextureFilter::Linear, TextureFilter::Linear);
    textures.register_texture(TextureId::Managed(0), texture(70, 80, linear));
    let mesh = |vertex_count, index_count, texture_id| GuiPrimitive::Mesh { vertex_count, index_count, texture_id };
    let primitives = vec![
        mesh(4, 6, TextureId::Managed(0)),
        GuiPrimitive::Callback,
        mesh(0, 6, TextureId::User(9)),
        mesh(3, 3, TextureId::Managed(0)),
    ];
    assert_eq!(textures.mesh_draws(&primitives), Ok(vec![(0, 70), (3, 70)]));
    let failing = vec![mesh(4, 6, TextureId::Managed(0)), mesh(4, 6, TextureId::User(9)), mesh(4, 6, TextureId::User(8))];
    assert_eq!(
        textures.mesh_draws(&failing),
        Err(GuiRendererError::TextureDescSetMissing { id: TextureId::User(9) })
    );
}
