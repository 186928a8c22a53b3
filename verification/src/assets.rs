use vstd::prelude::*;

verus! {

/// The five media files of the program. All of them are resolved before the
/// run enters `Play`; the scene names them, the engine holds them.
#[derive(Debug, Clone, Copy, PartialEq, Eq, Hash, Structural)]
pub enum Asset {
    /// The background animation: a sheet of 7 by 9 frames.
    Atlas,
    /// The music track.
    Music,
    /// The status icon: a sheet of two frames.
    KeyAtlas,
    /// The progress ball.
    Ball,
    /// The line along which the ball moves.
    Line,
}

/// The four of the assets that are images, and so can be put on a sprite.
#[derive(Debug, Clone, Copy, PartialEq, Eq, Hash, Structural)]
pub enum Texture {
    Atlas,
    KeyAtlas,
    Ball,
    Line,
}

impl Asset {
    /// The file name of the asset, as characters.
    pub open spec fn spec_path(self) -> Seq<char> {
        match self {
            Asset::Atlas => "anim.png"@,
            Asset::Music => "mus.mp3"@,
            Asset::KeyAtlas => "media.png"@,
            Asset::Ball => "playerball.png"@,
            Asset::Line => "line.png"@,
        }
    }

    /// The file name under which the asset is bundled.
    pub fn path(self) -> (name: &'static str)
        ensures
            name@ == self.spec_path(),
    {
        match self {
            Asset::Atlas => "anim.png",
            Asset::Music => "mus.mp3",
            Asset::KeyAtlas => "media.png",
            Asset::Ball => "playerball.png",
            Asset::Line => "line.png",
        }
    }
}

impl Texture {
    /// The asset that holds this image.
    pub open spec fn spec_asset(self) -> Asset {
        match self {
            Texture::Atlas => Asset::Atlas,
            Texture::KeyAtlas => Asset::KeyAtlas,
            Texture::Ball => Asset::Ball,
            Texture::Line => Asset::Line,
        }
    }

    /// The asset that holds this image; it is never the music track.
    #[verifier::when_used_as_spec(spec_asset)]
    pub fn asset(self) -> (asset: Asset)
        ensures
            asset == self.spec_asset(),
            asset != Asset::Music,
    {
        match self {
            Texture::Atlas => Asset::Atlas,
            Texture::KeyAtlas => Asset::KeyAtlas,
            Texture::Ball => Asset::Ball,
            Texture::Line => Asset::Line,
        }
    }
}

} // verus!
