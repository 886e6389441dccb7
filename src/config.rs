//! The configuration: packages, images and global switches.

use vstd::prelude::*;
use vstd::string::*;

verus! {

/// A package as the contracts see it.
pub struct PackageView {
    pub repo_name: Seq<char>,
    pub repo_url: Seq<char>,
    pub build_mode: bool,
}

/// A container image as the contracts see it.
pub struct ImageView {
    pub id: Seq<char>,
    pub image_name: Seq<char>,
    pub image_tag: Seq<char>,
}

/// One repository to fetch and, when `build_mode` is set, to build.
/// `repo_url` is the repository location; its fragment names the revision.
#[derive(Debug, Clone, PartialEq, Eq)]
pub struct PackageInfo {
    pub repo_name: String,
    pub repo_url: String,
    pub build_mode: bool,
}

/// A container image, looked up by `id`.
#[derive(Debug, Clone, PartialEq, Eq, Default)]
pub struct ImageInfo {
    pub id: String,
    pub image_name: String,
    pub image_tag: String,
}

/// Global switches.
#[derive(Debug, Clone, Copy, PartialEq, Eq, Default)]
pub struct SystemConfig {
    pub always_fetch_new_package: bool,
    pub build_godwoken_over_docker: bool,
}

/// The whole configuration of a run.
#[derive(Debug, Clone, PartialEq, Eq)]
pub struct Config {
    pub packages_info: Vec<PackageInfo>,
    pub images_info: Vec<ImageInfo>,
    pub system: SystemConfig,
}

impl View for PackageInfo {
    type V = PackageView;

    open spec fn view(&self) -> PackageView {
        PackageView {
            repo_name: self.repo_name@,
            repo_url: self.repo_url@,
            build_mode: self.build_mode,
        }
    }
}

impl View for ImageInfo {
    type V = ImageView;

    open spec fn view(&self) -> ImageView {
        ImageView { id: self.id@, image_name: self.image_name@, image_tag: self.image_tag@ }
    }
}

pub open spec fn package_views(v: Seq<PackageInfo>) -> Seq<PackageView> {
    v.map_values(|p: PackageInfo| p@)
}

pub open spec fn image_views(v: Seq<ImageInfo>) -> Seq<ImageView> {
    v.map_values(|i: ImageInfo| i@)
}

pub open spec fn package_view(name: Seq<char>, url: Seq<char>, build_mode: bool) -> PackageView {
    PackageView { repo_name: name, repo_url: url, build_mode }
}

pub open spec fn image_view(id: Seq<char>, name: Seq<char>, tag: Seq<char>) -> ImageView {
    ImageView { id, image_name: name, image_tag: tag }
}

/// The packages of the default configuration, none of them built.
pub open spec fn default_packages() -> Seq<PackageView> {
    seq![
        package_view("godwoken"@, "https://github.com/nervosnetwork/godwoken.git#v0.6.0-rc4"@, false),
        package_view("godwoken-polyman"@, "https://github.com/RetricSu/godwoken-polyman.git#v0.6.0-rc2"@, false),
        package_view("godwoken-web3"@, "https://github.com/nervosnetwork/godwoken-web3.git#v0.5.0-rc2"@, false),
        package_view("godwoken-scripts"@, "https://github.com/nervosnetwork/godwoken-scripts.git#v0.8.0-rc2"@, false),
        package_view("godwoken-polyjuice"@, "https://github.com/nervosnetwork/godwoken-polyjuice.git#v0.8.2-rc1"@, false),
        package_view("clerkb"@, "https://github.com/nervosnetwork/clerkb.git#v0.4.0"@, false),
    ]
}

/// The images of the default configuration.
pub open spec fn default_images() -> Seq<ImageView> {
    seq![
        image_view("docker_prebuild_image"@, "nervos/godwoken-prebuilds"@, "v0.6.0-rc2"@),
        image_view("docker_manual_build_image"@, "retricsu/godwoken-manual-build"@, "latest"@),
        image_view("docker_js_prebuild_image"@, "nervos/godwoken-js-prebuilds"@, "v0.6.0-rc2"@),
    ]
}

impl PackageInfo {
    pub fn new(repo_name: &str, repo_url: &str, build_mode: bool) -> (r: PackageInfo)
        ensures
            r@ == package_view(repo_name@, repo_url@, build_mode),
    {
        PackageInfo {
            repo_name: String::from_str(repo_name),
            repo_url: String::from_str(repo_url),
            build_mode,
        }
    }
}

impl ImageInfo {
    pub fn new(id: &str, image_name: &str, image_tag: &str) -> (r: ImageInfo)
        ensures
            r@ == image_view(id@, image_name@, image_tag@),
    {
        ImageInfo {
            id: String::from_str(id),
            image_name: String::from_str(image_name),
            image_tag: String::from_str(image_tag),
        }
    }

    /// The image reference `name:tag` handed to the container runtime.
    pub fn reference(&self) -> (r: String)
        ensures
            r@ == self.image_name@ + ":"@ + self.image_tag@,
    {
        self.image_name.clone().concat(":").concat(self.image_tag.as_str())
    }
}

/// Index of the first image whose id is `id`, if any.
pub open spec fn first_image_with_id(images: Seq<ImageView>, id: Seq<char>) -> Option<int> {
    if exists|i: int| 0 <= i < images.len() && images[i].id == id {
        Some(
            choose|i: int|
                0 <= i < images.len() && images[i].id == id && forall|j: int|
                    0 <= j < i ==> images[j].id != id,
        )
    } else {
        None
    }
}

impl Config {
    /// Position of the first image whose id is `id`.
    pub fn find_image(&self, id: &str) -> (r: Option<usize>)
        ensures
            match r {
                Some(i) => i < self.images_info@.len() && self.images_info@[i as int].id@ == id@
                    && forall|j: int| 0 <= j < i ==> self.images_info@[j].id@ != id@,
                None => forall|j: int|
                    0 <= j < self.images_info@.len() ==> self.images_info@[j].id@ != id@,
            },
            match r {
                Some(i) => first_image_with_id(image_views(self.images_info@), id@) == Some(i as int),
                None => first_image_with_id(image_views(self.images_info@), id@) is None,
            },
    {
        let key = String::from_str(id);
        let mut i: usize = 0;
        while i < self.images_info.len()
            invariant
                i <= self.images_info@.len(),
                key@ == id@,
                forall|j: int| 0 <= j < i ==> self.images_info@[j].id@ != id@,
            decreases self.images_info.len() - i,
        {
            if self.images_info[i].id == key {
                proof {
                    let v = image_views(self.images_info@);
                    assert(v[i as int].id == id@);
                    assert(forall|j: int| 0 <= j < i ==> v[j].id != id@);
                    let c = first_image_with_id(v, id@).unwrap();
                    assert(0 <= c < v.len() && v[c].id == id@);
                    if c < i {
                        assert(v[c].id != id@);
                    }
                    if c > i {
                        assert(v[i as int].id != id@);
                    }
                }
                return Some(i);
            }
            i = i + 1;
        }
        proof {
            let v = image_views(self.images_info@);
            assert(!exists|k: int| 0 <= k < v.len() && v[k].id == id@) by {
                assert(forall|k: int| 0 <= k < v.len() ==> v[k].id == self.images_info@[k].id@);
            }
        }
        None
    }
}

impl Default for Config {
    /// Six packages pinned to release revisions, none built; three images;
    /// every switch off.
    fn default() -> (r: Config)
        ensures
            package_views(r.packages_info@) == default_packages(),
            image_views(r.images_info@) == default_images(),
            !r.system.always_fetch_new_package,
            !r.system.build_godwoken_over_docker,
    {
        let packages_info = vec![
            PackageInfo::new("godwoken", "https://github.com/nervosnetwork/godwoken.git#v0.6.0-rc4", false),
            PackageInfo::new("godwoken-polyman", "https://github.com/RetricSu/godwoken-polyman.git#v0.6.0-rc2", false),
            PackageInfo::new("godwoken-web3", "https://github.com/nervosnetwork/godwoken-web3.git#v0.5.0-rc2", false),
            PackageInfo::new("godwoken-scripts", "https://github.com/nervosnetwork/godwoken-scripts.git#v0.8.0-rc2", false),
            PackageInfo::new("godwoken-polyjuice", "https://github.com/nervosnetwork/godwoken-polyjuice.git#v0.8.2-rc1", false),
            PackageInfo::new("clerkb", "https://github.com/nervosnetwork/clerkb.git#v0.4.0", false),
        ];
        let images_info = vec![
            ImageInfo::new("docker_prebuild_image", "nervos/godwoken-prebuilds", "v0.6.0-rc2"),
            ImageInfo::new("docker_manual_build_image", "retricsu/godwoken-manual-build", "latest"),
            ImageInfo::new("docker_js_prebuild_image", "nervos/godwoken-js-prebuilds", "v0.6.0-rc2"),
        ];
        assert(package_views(packages_info@) =~= default_packages());
        assert(image_views(images_info@) =~= default_images());
        Config {
            packages_info,
            images_info,
            system: SystemConfig { always_fetch_new_package: false, build_godwoken_over_docker: false },
        }
    }
}

} // verus!
