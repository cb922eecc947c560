//! Scene catalogue: an indexed, read-only-after-load mapping from scene name
//! to its declarative configuration, plus the script sources packaged with
//! the scenes.

use vstd::prelude::*;

use crate::data::{RuntimeData, RuntimeDataV, SceneConfig, SceneConfigV};

verus! {

/// The first scene of the sequence carrying the given name, if any.
pub open spec fn find_scene(scenes: Seq<SceneConfigV>, name: Seq<char>) -> Option<SceneConfigV>
    decreases scenes.len(),
{
    if scenes.len() == 0 {
        None
    } else if scenes[0].scene_name == name {
        Some(scenes[0])
    } else {
        find_scene(scenes.drop_first(), name)
    }
}

/// The first text filed under the given key in a key-text sequence, if any.
pub open spec fn find_source(scripts: Seq<(Seq<char>, Seq<char>)>, key: Seq<char>) -> Option<
    Seq<char>,
>
    decreases scripts.len(),
{
    if scripts.len() == 0 {
        None
    } else if scripts[0].0 == key {
        Some(scripts[0].1)
    } else {
        find_source(scripts.drop_first(), key)
    }
}

/// A scene is found under a name exactly when some scene of the sequence
/// carries that name, and what is found is one of the scenes, carrying it.
pub proof fn lemma_find_scene(scenes: Seq<SceneConfigV>, name: Seq<char>)
    ensures
        (find_scene(scenes, name) is Some) <==> (exists|i: int|
            0 <= i < scenes.len() && scenes[i].scene_name == name),
        find_scene(scenes, name) matches Some(sc) ==> sc.scene_name == name && (exists|i: int|
            0 <= i < scenes.len() && scenes[i] == sc),
    decreases scenes.len(),
{
    if scenes.len() == 0 {
    } else if scenes[0].scene_name == name {
        assert(scenes[0].scene_name == name);
    } else {
        lemma_find_scene(scenes.drop_first(), name);
        if exists|i: int| 0 <= i < scenes.len() && scenes[i].scene_name == name {
            let i = choose|i: int| 0 <= i < scenes.len() && scenes[i].scene_name == name;
            assert(scenes.drop_first()[i - 1] == scenes[i]);
        }
        if find_scene(scenes, name) is Some {
            let sc = find_scene(scenes, name)->Some_0;
            let i = choose|i: int|
                0 <= i < scenes.drop_first().len() && scenes.drop_first()[i] == sc;
            assert(scenes[i + 1] == sc);
        }
    }
}

/// An indexed, read-only mapping from scene name to scene configuration,
/// together with the packaged script sources. Built once from the decoded
/// package.
pub struct SceneCatalogue {
    pub scenes: Vec<SceneConfig>,
    pub scripts: Vec<(String, String)>,
}

impl View for SceneCatalogue {
    type V = RuntimeDataV;

    open spec fn view(&self) -> RuntimeDataV {
        RuntimeDataV { scenes: self.scenes.deep_view(), scripts: self.scripts.deep_view() }
    }
}

impl SceneCatalogue {
    /// Build the catalogue from decoded package contents; the scenes keep
    /// their declaration order and the script mapping is taken as packaged.
    pub fn from_data(data: RuntimeData) -> (r: SceneCatalogue)
        ensures
            r@ == data@,
    {
        SceneCatalogue { scenes: data.scenes, scripts: data.scripts }
    }

    /// Look a scene up by name: the first scene declared under that name,
    /// or nothing when no scene carries it. Absence is a recoverable
    /// scene-not-found condition, never a panic.
    pub fn lookup(&self, name: &String) -> (r: Option<&SceneConfig>)
        ensures
            (match find_scene(self@.scenes, name@) {
                Some(sc) => r matches Some(c) && c.deep_view() == sc,
                None => r is None,
            }),
    {
        let ghost dv = self@.scenes;
        let mut i: usize = 0;
        proof {
            assert(dv.skip(0) =~= dv);
        }
        while i < self.scenes.len()
            invariant
                dv == self@.scenes,
                dv.len() == self.scenes@.len(),
                i <= self.scenes@.len(),
                find_scene(dv, name@) == find_scene(dv.skip(i as int), name@),
            decreases self.scenes@.len() - i,
        {
            if self.scenes[i].scene_name == *name {
                proof {
                    assert(dv.skip(i as int)[0] == dv[i as int]);
                }
                return Some(&self.scenes[i]);
            }
            proof {
                assert(dv.skip(i as int)[0] == dv[i as int]);
                assert(dv.skip(i as int).drop_first() =~= dv.skip(i + 1));
            }
            i = i + 1;
        }
        proof {
            assert(dv.skip(i as int) =~= Seq::empty());
        }
        None
    }

    /// Look a script source up by name: the first source filed under that
    /// key, or nothing when the package holds none.
    pub fn lookup_script(&self, key: &String) -> (r: Option<&String>)
        ensures
            (match find_source(self@.scripts, key@) {
                Some(text) => r matches Some(t) && t@ == text,
                None => r is None,
            }),
    {
        let ghost dv = self@.scripts;
        let mut i: usize = 0;
        proof {
            assert(dv.skip(0) =~= dv);
        }
        while i < self.scripts.len()
            invariant
                dv == self@.scripts,
                dv.len() == self.scripts@.len(),
                i <= self.scripts@.len(),
                find_source(dv, key@) == find_source(dv.skip(i as int), key@),
            decreases self.scripts@.len() - i,
        {
            if self.scripts[i].0 == *key {
                proof {
                    assert(dv.skip(i as int)[0] == dv[i as int]);
                }
                return Some(&self.scripts[i].1);
            }
            proof {
                assert(dv.skip(i as int)[0] == dv[i as int]);
                assert(dv.skip(i as int).drop_first() =~= dv.skip(i + 1));
            }
            i = i + 1;
        }
        proof {
            assert(dv.skip(i as int) =~= Seq::empty());
        }
        None
    }

    /// What the startup scene should be: the scene literally named
    /// `Default` when one exists, else the first declared scene, else
    /// nothing — an empty catalogue has no playable content.
    pub open spec fn spec_default_scene_name(scenes: Seq<SceneConfigV>) -> Option<Seq<char>> {
        if exists|i: int| 0 <= i < scenes.len() && scenes[i].scene_name == "Default"@ {
            Some("Default"@)
        } else if scenes.len() > 0 {
            Some(scenes[0].scene_name)
        } else {
            None
        }
    }

    /// The name of the scene to start with: `"Default"` when a scene of
    /// that name exists, else the first declared scene's name, else nothing.
    pub fn default_scene_name(&self) -> (r: Option<String>)
        ensures
            (match Self::spec_default_scene_name(self@.scenes) {
                Some(name) => r matches Some(s) && s@ == name,
                None => r is None,
            }),
    {
        let def: String = "Default".to_owned();
        proof {
            lemma_find_scene(self@.scenes, def@);
        }
        match self.lookup(&def) {
            Some(_) => Some(def),
            None => {
                if self.scenes.len() > 0 {
                    Some(self.scenes[0].scene_name.clone())
                } else {
                    None
                }
            },
        }
    }
}

} // verus!
