//! The fixed synthetic data set that is published while the coordinator knows no popular files.

use vstd::prelude::*;

verus! {

/// One synthetic file.
#[derive(Debug, Clone, Copy, PartialEq, Eq)]
pub struct SyntheticPopularSeed {
    pub title: &'static str,
    pub size: u64,
    pub source_count: u32,
}

/// The number of synthetic files.
pub const SYNTHETIC_SEED_COUNT: usize = 40;

/// The synthetic files, in the order in which they are published.
#[verifier::opaque]
pub open spec fn seed_data() -> Seq<SyntheticPopularSeed> {
    seq![
        SyntheticPopularSeed { title: "ubuntu linux 24.04 desktop amd64.iso", size: 734_003_200, source_count: 31 },
        SyntheticPopularSeed { title: "mario paint quorlith orchestra live at the moon.avi", size: 1_417_965_568, source_count: 24 },
        SyntheticPopularSeed { title: "10 hours of nyan cat.mp4", size: 92_381_184, source_count: 19 },
        SyntheticPopularSeed { title: "laser dolphin documentary 1997.mkv", size: 2_486_124_544, source_count: 16 },
        SyntheticPopularSeed { title: "cat-powered data center walkthrough.iso", size: 4_597_211_136, source_count: 11 },
        SyntheticPopularSeed { title: "unofficial windows 98 vaporwave patch.zip", size: 803_471_360, source_count: 27 },
        SyntheticPopularSeed { title: "beep test but every beep is a fax machine.flac", size: 558_366_720, source_count: 14 },
        SyntheticPopularSeed { title: "office 2010 professional plus x86.iso", size: 128_661_504, source_count: 22 },
        SyntheticPopularSeed { title: "retro hamster workstation benchmark.mov", size: 1_934_155_776, source_count: 17 },
        SyntheticPopularSeed { title: "flying toaster championship finals.mp4", size: 1_215_102_976, source_count: 29 },
        SyntheticPopularSeed { title: "synthwave aquarium screensaver collection.rar", size: 677_478_400, source_count: 13 },
        SyntheticPopularSeed { title: "ubuntu linux server 24.04 live amd64.iso", size: 18_456_321, source_count: 18 },
        SyntheticPopularSeed { title: "very long train horn ambience.wav", size: 2_812_747_776, source_count: 12 },
        SyntheticPopularSeed { title: "adobe photoshop cs6 portable.rar", size: 943_128_576, source_count: 15 },
        SyntheticPopularSeed { title: "windows 7 ultimate sp1 x64 dvd.iso", size: 421_388_288, source_count: 9 },
        SyntheticPopularSeed { title: "museum of broken gamepads.pdf", size: 67_210_240, source_count: 21 },
        SyntheticPopularSeed { title: "game of thrones season 1 complete 720p.mkv", size: 44_992_610, source_count: 10 },
        SyntheticPopularSeed { title: "the office us season 2 dvdrip xvid.avi", size: 134_742_016, source_count: 8 },
        SyntheticPopularSeed { title: "midnight subway cat rave.mkv", size: 3_288_334_336, source_count: 26 },
        SyntheticPopularSeed { title: "top 100 dance hits 2009.mp3", size: 77_414_400, source_count: 23 },
        SyntheticPopularSeed { title: "vhs rip of the internet weather channel.ts", size: 5_188_911_104, source_count: 14 },
        SyntheticPopularSeed { title: "ubuntu linux 22.04 desktop amd64.iso", size: 1_104_199_680, source_count: 28 },
        SyntheticPopularSeed { title: "the lord of the rings extended trilogy 1080p.mkv", size: 612_892_672, source_count: 20 },
        SyntheticPopularSeed { title: "microsoft office 2007 enterprise.iso", size: 695_205_888, source_count: 17 },
        SyntheticPopularSeed { title: "grand theft auto vice city full rip.iso", size: 1_544_269_824, source_count: 12 },
        SyntheticPopularSeed { title: "breaking bad season 3 complete 720p.mkv", size: 88_199_168, source_count: 25 },
        SyntheticPopularSeed { title: "ubuntu linux 20.04.6 live server amd64.iso", size: 3_964_108_800, source_count: 16 },
        SyntheticPopularSeed { title: "top gear complete specials collection x264.mp4", size: 233_308_160, source_count: 13 },
        SyntheticPopularSeed { title: "the beatles abbey road remastered.flac", size: 1_572_864, source_count: 7 },
        SyntheticPopularSeed { title: "harry potter complete 1080p bluray x264.mkv", size: 376_877_056, source_count: 11 },
        SyntheticPopularSeed { title: "visual studio 2010 professional.iso", size: 190_513_152, source_count: 9 },
        SyntheticPopularSeed { title: "ubuntu linux 18.04 desktop amd64.iso", size: 1_672_331_264, source_count: 18 },
        SyntheticPopularSeed { title: "pink floyd the wall remastered.flac", size: 49_283_072, source_count: 15 },
        SyntheticPopularSeed { title: "friends complete season 5 dvdrip xvid.avi", size: 2_965_983_232, source_count: 19 },
        SyntheticPopularSeed { title: "ubuntu linux handbook 2026.pdf", size: 821_051_392, source_count: 24 },
        SyntheticPopularSeed { title: "windows xp professional sp3 corporate.iso", size: 1_281_286_144, source_count: 17 },
        SyntheticPopularSeed { title: "portable rave lighthouse screensaver.scr", size: 28_311_552, source_count: 12 },
        SyntheticPopularSeed { title: "greatest floppy disk solos anthology.flac", size: 607_518_720, source_count: 20 },
        SyntheticPopularSeed { title: "galactic sandwich emulator setup.exe", size: 509_607_936, source_count: 14 },
        SyntheticPopularSeed { title: "vintage webcam ghost sightings collection.mkv", size: 2_118_541_312, source_count: 22 },
    ]
}

/// The synthetic files, in the order in which they are published.
pub fn synthetic_popular_seeds() -> (r: [SyntheticPopularSeed; 40])
    ensures
        r@ == seed_data(),
{
    let seeds: [SyntheticPopularSeed; 40] = [
        SyntheticPopularSeed { title: "ubuntu linux 24.04 desktop amd64.iso", size: 734_003_200, source_count: 31 },
        SyntheticPopularSeed { title: "mario paint quorlith orchestra live at the moon.avi", size: 1_417_965_568, source_count: 24 },
        SyntheticPopularSeed { title: "10 hours of nyan cat.mp4", size: 92_381_184, source_count: 19 },
        SyntheticPopularSeed { title: "laser dolphin documentary 1997.mkv", size: 2_486_124_544, source_count: 16 },
        SyntheticPopularSeed { title: "cat-powered data center walkthrough.iso", size: 4_597_211_136, source_count: 11 },
        SyntheticPopularSeed { title: "unofficial windows 98 vaporwave patch.zip", size: 803_471_360, source_count: 27 },
        SyntheticPopularSeed { title: "beep test but every beep is a fax machine.flac", size: 558_366_720, source_count: 14 },
        SyntheticPopularSeed { title: "office 2010 professional plus x86.iso", size: 128_661_504, source_count: 22 },
        SyntheticPopularSeed { title: "retro hamster workstation benchmark.mov", size: 1_934_155_776, source_count: 17 },
        SyntheticPopularSeed { title: "flying toaster championship finals.mp4", size: 1_215_102_976, source_count: 29 },
        SyntheticPopularSeed { title: "synthwave aquarium screensaver collection.rar", size: 677_478_400, source_count: 13 },
        SyntheticPopularSeed { title: "ubuntu linux server 24.04 live amd64.iso", size: 18_456_321, source_count: 18 },
        SyntheticPopularSeed { title: "very long train horn ambience.wav", size: 2_812_747_776, source_count: 12 },
        SyntheticPopularSeed { title: "adobe photoshop cs6 portable.rar", size: 943_128_576, source_count: 15 },
        SyntheticPopularSeed { title: "windows 7 ultimate sp1 x64 dvd.iso", size: 421_388_288, source_count: 9 },
        SyntheticPopularSeed { title: "museum of broken gamepads.pdf", size: 67_210_240, source_count: 21 },
        SyntheticPopularSeed { title: "game of thrones season 1 complete 720p.mkv", size: 44_992_610, source_count: 10 },
        SyntheticPopularSeed { title: "the office us season 2 dvdrip xvid.avi", size: 134_742_016, source_count: 8 },
        SyntheticPopularSeed { title: "midnight subway cat rave.mkv", size: 3_288_334_336, source_count: 26 },
        SyntheticPopularSeed { title: "top 100 dance hits 2009.mp3", size: 77_414_400, source_count: 23 },
        SyntheticPopularSeed { title: "vhs rip of the internet weather channel.ts", size: 5_188_911_104, source_count: 14 },
        SyntheticPopularSeed { title: "ubuntu linux 22.04 desktop amd64.iso", size: 1_104_199_680, source_count: 28 },
        SyntheticPopularSeed { title: "the lord of the rings extended trilogy 1080p.mkv", size: 612_892_672, source_count: 20 },
        SyntheticPopularSeed { title: "microsoft office 2007 enterprise.iso", size: 695_205_888, source_count: 17 },
        SyntheticPopularSeed { title: "grand theft auto vice city full rip.iso", size: 1_544_269_824, source_count: 12 },
        SyntheticPopularSeed { title: "breaking bad season 3 complete 720p.mkv", size: 88_199_168, source_count: 25 },
        SyntheticPopularSeed { title: "ubuntu linux 20.04.6 live server amd64.iso", size: 3_964_108_800, source_count: 16 },
        SyntheticPopularSeed { title: "top gear complete specials collection x264.mp4", size: 233_308_160, source_count: 13 },
        SyntheticPopularSeed { title: "the beatles abbey road remastered.flac", size: 1_572_864, source_count: 7 },
        SyntheticPopularSeed { title: "harry potter complete 1080p bluray x264.mkv", size: 376_877_056, source_count: 11 },
        SyntheticPopularSeed { title: "visual studio 2010 professional.iso", size: 190_513_152, source_count: 9 },
        SyntheticPopularSeed { title: "ubuntu linux 18.04 desktop amd64.iso", size: 1_672_331_264, source_count: 18 },
        SyntheticPopularSeed { title: "pink floyd the wall remastered.flac", size: 49_283_072, source_count: 15 },
        SyntheticPopularSeed { title: "friends complete season 5 dvdrip xvid.avi", size: 2_965_983_232, source_count: 19 },
        SyntheticPopularSeed { title: "ubuntu linux handbook 2026.pdf", size: 821_051_392, source_count: 24 },
        SyntheticPopularSeed { title: "windows xp professional sp3 corporate.iso", size: 1_281_286_144, source_count: 17 },
        SyntheticPopularSeed { title: "portable rave lighthouse screensaver.scr", size: 28_311_552, source_count: 12 },
        SyntheticPopularSeed { title: "greatest floppy disk solos anthology.flac", size: 607_518_720, source_count: 20 },
        SyntheticPopularSeed { title: "galactic sandwich emulator setup.exe", size: 509_607_936, source_count: 14 },
        SyntheticPopularSeed { title: "vintage webcam ghost sightings collection.mkv", size: 2_118_541_312, source_count: 22 },
    ];
    proof {
        reveal(seed_data);
        assert(seeds@ =~= seed_data());
    }
    seeds
}

} // verus!
