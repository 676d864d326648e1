//! What a compute device is handed to render a scene, as 32-bit words, and
//! the image made of what it hands back.
use vstd::prelude::*;
use crate::camera::{Camera, CameraView};
use crate::data_structures::GPUData;
use crate::film::Film;
use crate::renderer::SceneRenderer;
use crate::scalar::Scalar;
use crate::scene::{padded, Scene, SceneView};
use crate::vec3::Vec3;

verus! {

/// How many pixels one workgroup of the device renders.
pub const WORKGROUP_PIXELS: u32 = 145;

/// `rand::random::<u32>`: a word from the thread's random number
/// generator. Nothing is known of its value.
#[verifier::external_body]
fn random_word() -> u32 {
    rand::random::<u32>()
}

/// One random word for each of `count` pixels, to seed the device's own
/// generators.
pub fn random_words(count: usize) -> (words: Vec<u32>)
    ensures
        words@.len() == count,
{
    let mut words: Vec<u32> = Vec::new();
    let mut i: usize = 0;
    while i < count
        invariant
            i <= count,
            words@.len() == i,
        decreases count - i,
    {
        words.push(random_word());
        i += 1;
    }
    words
}

/// The number of workgroups to dispatch for an image of the given size:
/// one for every 145 pixels begun, and one more.
pub fn workgroups(width: u32, height: u32) -> (n: u32)
    requires
        width * height <= u32::MAX,
    ensures
        n == width * height / (WORKGROUP_PIXELS as int) + 1,
{
    assert(width * height >= 0) by (nonlinear_arith);
    width * height / WORKGROUP_PIXELS + 1
}

/// The first value of every pixel on the device: four ones.
pub fn pixel_words(width: u32, height: u32) -> (words: Vec<u32>)
    requires
        4 * width * height <= usize::MAX,
    ensures
        words@.len() == 4 * width * height,
        forall|i: int| 0 <= i < words@.len() ==> words@[i] == Scalar::one().bits,
{
    assert(width * height >= 0 && 4 * width * height == 4 * (width * height)) by (nonlinear_arith);
    let count: usize = 4 * ((width as usize) * (height as usize));
    let mut words: Vec<u32> = Vec::new();
    let mut i: usize = 0;
    while i < count
        invariant
            i <= count,
            words@.len() == i,
            forall|j: int| 0 <= j < i ==> words@[j] == Scalar::one().bits,
        decreases count - i,
    {
        words.push(Scalar::one().to_bits());
        i += 1;
    }
    words
}

/// The bits of sixteen scalars.
pub open spec fn matrix_words(m: [Scalar; 16]) -> Seq<u32> {
    Seq::new(16, |i: int| m[i].bits)
}

/// The camera and the settings of a render as words: the position and a
/// zero, the inverse projection, the inverse view, then width, height,
/// samples per pixel and recursion depth.
pub open spec fn camera_words(
    camera: CameraView,
    inverse_projection: [Scalar; 16],
    inverse_view: [Scalar; 16],
    sample_count: u32,
    recursion_depth: u32,
) -> Seq<u32> {
    padded(camera.position) + matrix_words(inverse_projection) + matrix_words(inverse_view) + seq![
        camera.width,
        camera.height,
        sample_count,
        recursion_depth,
    ]
}

fn push_matrix(words: &mut Vec<u32>, m: &[Scalar; 16])
    ensures
        final(words)@ == old(words)@ + matrix_words(*m),
{
    let mut i: usize = 0;
    while i < 16
        invariant
            i <= 16,
            words@ == old(words)@ + matrix_words(*m).subrange(0, i as int),
        decreases 16 - i,
    {
        words.push(m[i].to_bits());
        i += 1;
    }
    assert(matrix_words(*m).subrange(0, 16) == matrix_words(*m));
}

/// Renders a scene on a compute device: this part lays out what the device
/// is handed.
pub struct GPUSceneRenderer<'scene> {
    camera: &'scene Camera,
    scene: &'scene Scene,
    sample_count: u32,
    recursion_depth: u32,
}

/// What a device renderer is set up with.
pub struct GPUSceneRendererView {
    pub camera: CameraView,
    pub scene: SceneView,
    pub sample_count: u32,
    pub recursion_depth: u32,
}

impl<'scene> View for GPUSceneRenderer<'scene> {
    type V = GPUSceneRendererView;

    closed spec fn view(&self) -> GPUSceneRendererView {
        GPUSceneRendererView {
            camera: self.camera@,
            scene: self.scene@,
            sample_count: self.sample_count,
            recursion_depth: self.recursion_depth,
        }
    }
}

impl<'scene> GPUSceneRenderer<'scene> {
    /// A renderer with one sample per pixel and a recursion depth of one.
    pub fn new(camera: &'scene Camera, scene: &'scene Scene) -> (r: Self)
        ensures
            r@ == (GPUSceneRendererView {
                camera: camera@,
                scene: scene@,
                sample_count: 1,
                recursion_depth: 1,
            }),
    {
        Self { camera, scene, sample_count: 1, recursion_depth: 1 }
    }

    /// Sets the number of samples per pixel.
    pub fn set_sample_count(&mut self, sample_count: u32)
        ensures
            final(self)@ == (GPUSceneRendererView { sample_count, ..old(self)@ }),
    {
        self.sample_count = sample_count;
    }

    /// Sets the recursion depth.
    pub fn set_recursion_depth(&mut self, recursion_depth: u32)
        ensures
            final(self)@ == (GPUSceneRendererView { recursion_depth, ..old(self)@ }),
    {
        self.recursion_depth = recursion_depth;
    }

    pub fn camera(&self) -> (camera: &'scene Camera)
        ensures
            camera@ == self@.camera,
    {
        self.camera
    }

    pub fn scene(&self) -> (scene: &'scene Scene)
        ensures
            scene@ == self@.scene,
    {
        self.scene
    }

    /// The camera and the settings as words for the device, given the
    /// inverses of the camera's projection and view, column by column.
    pub fn camera_data_buffer(&self, inverse_projection: &[Scalar; 16], inverse_view: &[Scalar; 16]) -> (words: Vec<
        u32,
    >)
        ensures
            words@ == camera_words(
                self@.camera,
                *inverse_projection,
                *inverse_view,
                self@.sample_count,
                self@.recursion_depth,
            ),
    {
        let position = self.camera.position();
        let (width, height) = self.camera.get_dimensions();
        let mut words: Vec<u32> = Vec::new();
        words.push(position.x.to_bits());
        words.push(position.y.to_bits());
        words.push(position.z.to_bits());
        words.push(0);
        assert(words@ =~= padded(position));
        push_matrix(&mut words, inverse_projection);
        push_matrix(&mut words, inverse_view);
        let ghost before = words@;
        words.push(width);
        words.push(height);
        words.push(self.sample_count);
        words.push(self.recursion_depth);
        assert(words@ =~= before + seq![width, height, self.sample_count, self.recursion_depth]);
        words
    }
}

/// Renders the records of a scene on a compute device: this part keeps the
/// records and makes the image.
pub struct Renderer {
    gpu_data: GPUData,
    image_resolution: (u32, u32),
}

impl Renderer {
    /// The records that are rendered.
    pub closed spec fn data(self) -> GPUData {
        self.gpu_data
    }

    /// Width and height of the image.
    pub closed spec fn resolution(self) -> (u32, u32) {
        self.image_resolution
    }

    pub fn new(gpu_data: GPUData, image_resolution: (u32, u32)) -> (r: Self)
        ensures
            r.data() == gpu_data,
            r.resolution() == image_resolution,
    {
        Self { gpu_data, image_resolution }
    }

    pub fn gpu_data(&self) -> (data: &GPUData)
        ensures
            *data == self.data(),
    {
        &self.gpu_data
    }

    pub fn image_resolution(&self) -> (r: (u32, u32))
        ensures
            r == self.resolution(),
    {
        self.image_resolution
    }

    /// The image of what the device hands back: four numbers for each
    /// pixel, row after row from the bottom, of which the first three are
    /// the linear colour and the fourth is not looked at. Pixel `(x, y)` of
    /// the image, `y` growing downward, gets the bytes of the colour at
    /// `x + (height - 1 - y) * width`.
    pub fn to_image(&self, data: &[[Scalar; 4]]) -> (film: Film)
        requires
            data@.len() == self.resolution().0 * self.resolution().1,
            3 * self.resolution().0 <= usize::MAX,
            3 * self.resolution().0 * self.resolution().1 <= isize::MAX,
        ensures
            film.width() == self.resolution().0,
            film.height() == self.resolution().1,
            film.complete(),
            forall|x: int, y: int|
                0 <= x < film.width() && 0 <= y < film.height() ==> #[trigger] film.pixel(x, y)
                    == SceneRenderer::vec3_to_rgb_spec(color_of(data@[x + (film.height() - 1 - y) * film.width()])),
    {
        let (width, height) = self.image_resolution;
        let count: usize = data.len();
        let mut film = Film::new(width, height);
        let mut y: u32 = 0;
        while y < height
            invariant
                y <= height,
                data@.len() == width * height,
                data@.len() == count,
                film.width() == width,
                film.height() == height,
                film.complete(),
                forall|i: int, j: int|
                    0 <= i < width && 0 <= j < y ==> #[trigger] film.pixel(i, j) == SceneRenderer::vec3_to_rgb_spec(
                        color_of(data@[i + (height - 1 - j) * width]),
                    ),
            decreases height - y,
        {
            let mut x: u32 = 0;
            while x < width
                invariant
                    y < height,
                    x <= width,
                    data@.len() == width * height,
                    data@.len() == count,
                    film.width() == width,
                    film.height() == height,
                    film.complete(),
                    forall|i: int, j: int|
                        0 <= i < width && 0 <= j < height && (j < y || (j == y && i < x)) ==> #[trigger] film.pixel(
                            i,
                            j,
                        ) == SceneRenderer::vec3_to_rgb_spec(color_of(data@[i + (height - 1 - j) * width])),
                decreases width - x,
            {
                let row: u32 = height - 1 - y;
                assert(0 <= x + row * width < width * height) by (nonlinear_arith)
                    requires
                        0 <= x < width,
                        0 <= row < height,
                ;
                let index: usize = (x as usize) + (row as usize) * (width as usize);
                let rgba = data[index];
                film.put_pixel(x, y, SceneRenderer::vec3_to_rgb(Vec3::new(rgba[0], rgba[1], rgba[2])));
                x += 1;
            }
            y += 1;
        }
        film
    }
}

/// The colour of four numbers: the first three.
pub open spec fn color_of(rgba: [Scalar; 4]) -> Vec3 {
    Vec3 { x: rgba[0], y: rgba[1], z: rgba[2] }
}

} // verus!
