use vstd::prelude::*;

use crate::json::{group_body, group_object};
use crate::text::{decimal, json_string, push_decimal, string_member_body, string_member_object};

verus! {

/// The HTTP method of a request.
#[derive(Debug, Clone, Copy, PartialEq, Eq, Structural)]
pub enum Method {
    Get,
    Post,
    Put,
    Delete,
}

/// A request to send to the bridge: its method, full URL and JSON body.
#[derive(Debug, Clone, PartialEq, Eq)]
pub struct HueRequest {
    pub method: Method,
    pub url: String,
    pub body: Option<String>,
}

/// `http://<ip>/api`, where new users are registered.
pub open spec fn registration_url(ip: Seq<char>) -> Seq<char> {
    "http://"@ + ip + "/api"@
}

/// `http://<ip>/api/<username>/`, the prefix of every resource URL.
pub open spec fn base_url(ip: Seq<char>, username: Seq<char>) -> Seq<char> {
    "http://"@ + ip + "/api/"@ + username + "/"@
}

/// A view of an optional body.
pub open spec fn body_view(b: Option<String>) -> Option<Seq<char>> {
    match b {
        Some(s) => Some(s@),
        None => None,
    }
}

/// The request to register a user of the given device type.
pub fn register_request(ip: &str, devicetype: &str) -> (r: HueRequest)
    ensures
        r.method == Method::Post,
        r.url@ == registration_url(ip@),
        body_view(r.body) == Some(string_member_object("devicetype"@, devicetype@)),
{
    let body = string_member_body("devicetype", devicetype);
    let mut url = String::from_str("http://");
    url.append(ip);
    url.append("/api");
    proof {
        assert(url@ =~= registration_url(ip@));
    }
    HueRequest { method: Method::Post, url, body: Some(body) }
}

/// A bridge at an address, reached with a username.
#[derive(Debug, Clone)]
pub struct Bridge {
    ip: String,
    username: String,
}

impl Bridge {
    /// The bridge's address.
    pub closed spec fn address(&self) -> Seq<char> {
        self.ip@
    }

    /// The username the bridge is reached with.
    pub closed spec fn credential(&self) -> Seq<char> {
        self.username@
    }

    /// The full URL of a resource path.
    pub open spec fn url_of(&self, path: Seq<char>) -> Seq<char> {
        base_url(self.address(), self.credential()) + path
    }

    /// `r` is a request with this method, path and body.
    pub open spec fn plans(&self, r: HueRequest, m: Method, path: Seq<char>, body: Option<Seq<char>>) -> bool {
        &&& r.method == m
        &&& r.url@ == self.url_of(path)
        &&& body_view(r.body) == body
    }

    /// Creates a `Bridge` on the given IP with the given username.
    pub fn new(ip: &str, username: &str) -> (r: Bridge)
        requires
            ip@.len() > 0,
            username@.len() > 0,
        ensures
            r.address() == ip@,
            r.credential() == username@,
    {
        Bridge { ip: String::from_str(ip), username: String::from_str(username) }
    }

    /// Gets the IP of the bridge.
    pub fn get_ip(&self) -> (r: &str)
        ensures
            r@ == self.address(),
    {
        self.ip.as_str()
    }

    /// Gets the username this `Bridge` uses.
    pub fn get_username(&self) -> (r: &str)
        ensures
            r@ == self.credential(),
    {
        self.username.as_str()
    }

    /// The full URL of a resource path given as text.
    pub fn url(&self, path: &str) -> (r: String)
        ensures
            r@ == self.url_of(path@),
    {
        let mut url = String::from_str("http://");
        url.append(self.ip.as_str());
        url.append("/api/");
        url.append(self.username.as_str());
        url.append("/");
        url.append(path);
        proof {
            assert(url@ =~= self.url_of(path@));
        }
        url
    }

    /// The full URL of `<prefix><id><suffix>`.
    fn url_with_id(&self, prefix: &str, id: usize, suffix: &str) -> (r: String)
        ensures
            r@ == self.url_of(prefix@ + decimal(id as nat) + suffix@),
    {
        let mut url = self.url(prefix);
        push_decimal(&mut url, id);
        url.append(suffix);
        proof {
            assert(url@ =~= self.url_of(prefix@ + decimal(id as nat) + suffix@));
        }
        url
    }

    /// The full URL of `<prefix><name><suffix>`.
    fn url_with_name(&self, prefix: &str, name: &str, suffix: &str) -> (r: String)
        ensures
            r@ == self.url_of(prefix@ + name@ + suffix@),
    {
        let mut url = self.url(prefix);
        url.append(name);
        url.append(suffix);
        proof {
            assert(url@ =~= self.url_of(prefix@ + name@ + suffix@));
        }
        url
    }

    /// The full URL of `<prefix><id>`.
    fn url_ending_in_id(&self, prefix: &str, id: usize) -> (r: String)
        ensures
            r@ == self.url_of(prefix@ + decimal(id as nat)),
    {
        proof {
            reveal_strlit("");
        }
        let url = self.url_with_id(prefix, id, "");
        proof {
            assert(prefix@ + decimal(id as nat) + ""@ =~= prefix@ + decimal(id as nat));
        }
        url
    }

    /// The full URL of `<prefix><name>`.
    fn url_ending_in_name(&self, prefix: &str, name: &str) -> (r: String)
        ensures
            r@ == self.url_of(prefix@ + name@),
    {
        proof {
            reveal_strlit("");
        }
        let url = self.url_with_name(prefix, name, "");
        proof {
            assert(prefix@ + name@ + ""@ =~= prefix@ + name@);
        }
        url
    }

    // LIGHTS

    /// Gets all lights that are connected to the bridge.
    pub fn get_all_lights(&self) -> (r: HueRequest)
        ensures
            self.plans(r, Method::Get, "lights"@, None),
    {
        HueRequest { method: Method::Get, url: self.url("lights"), body: None }
    }

    /// Gets the light with the specific id.
    pub fn get_light(&self, id: usize) -> (r: HueRequest)
        ensures
            self.plans(r, Method::Get, "lights/"@ + decimal(id as nat), None),
    {
        HueRequest { method: Method::Get, url: self.url_ending_in_id("lights/", id), body: None }
    }

    /// Gets all the lights that were found last time a search for new
    /// lights was done.
    pub fn get_new_lights(&self) -> (r: HueRequest)
        ensures
            self.plans(r, Method::Get, "lights/new"@, None),
    {
        HueRequest { method: Method::Get, url: self.url("lights/new"), body: None }
    }

    /// Makes the bridge search for new lights (and switches).
    pub fn search_for_new_lights(&self) -> (r: HueRequest)
        ensures
            self.plans(r, Method::Post, "lights"@, None),
    {
        HueRequest { method: Method::Post, url: self.url("lights"), body: None }
    }

    /// Sets the state of a light; `command` is the encoded light command.
    pub fn set_light_state(&self, id: usize, command: &str) -> (r: HueRequest)
        ensures
            self.plans(r, Method::Put, "lights/"@ + decimal(id as nat) + "/state"@, Some(command@)),
    {
        HueRequest {
            method: Method::Put,
            url: self.url_with_id("lights/", id, "/state"),
            body: Some(String::from_str(command)),
        }
    }

    /// Renames the light.
    pub fn rename_light(&self, id: usize, name: &str) -> (r: HueRequest)
        ensures
            self.plans(
                r,
                Method::Put,
                "lights/"@ + decimal(id as nat),
                Some(string_member_object("name"@, name@)),
            ),
    {
        let body = string_member_body("name", name);
        HueRequest { method: Method::Put, url: self.url_ending_in_id("lights/", id), body: Some(body) }
    }

    /// Deletes a light from the bridge.
    pub fn delete_light(&self, id: usize) -> (r: HueRequest)
        ensures
            self.plans(r, Method::Delete, "lights/"@ + decimal(id as nat), None),
    {
        HueRequest { method: Method::Delete, url: self.url_ending_in_id("lights/", id), body: None }
    }

    // GROUPS

    /// Gets all groups of the bridge.
    pub fn get_all_groups(&self) -> (r: HueRequest)
        ensures
            self.plans(r, Method::Get, "groups"@, None),
    {
        HueRequest { method: Method::Get, url: self.url("groups"), body: None }
    }

    /// Creates a group; the bridge answers with the ID of the group.
    pub fn create_group(&self, name: &str, lights: &Vec<usize>, group_type: &str, room_class: Option<&str>) -> (r:
        HueRequest)
        ensures
            self.plans(
                r,
                Method::Post,
                "groups"@,
                Some(
                    group_object(
                        json_string(name@),
                        lights@,
                        json_string(group_type@),
                        match room_class {
                            Some(c) => Some(json_string(c@)),
                            None => None,
                        },
                    ),
                ),
            ),
    {
        let body = group_body(name, lights, group_type, room_class);
        HueRequest { method: Method::Post, url: self.url("groups"), body: Some(body) }
    }

    /// Gets extra information about a specific group.
    pub fn get_group_attributes(&self, id: usize) -> (r: HueRequest)
        ensures
            self.plans(r, Method::Get, "groups/"@ + decimal(id as nat), None),
    {
        HueRequest { method: Method::Get, url: self.url_ending_in_id("groups/", id), body: None }
    }

    /// Sets the name, lights and class of a group; `attr` is the encoded
    /// group command.
    pub fn set_group_attributes(&self, id: usize, attr: &str) -> (r: HueRequest)
        ensures
            self.plans(r, Method::Put, "groups/"@ + decimal(id as nat), Some(attr@)),
    {
        HueRequest {
            method: Method::Put,
            url: self.url_ending_in_id("groups/", id),
            body: Some(String::from_str(attr)),
        }
    }

    /// Sets the state of all lights in the group; `state` is the encoded
    /// light command. Group 0 holds every light known to the bridge.
    pub fn set_group_state(&self, id: usize, state: &str) -> (r: HueRequest)
        ensures
            self.plans(r, Method::Put, "groups/"@ + decimal(id as nat) + "/action"@, Some(state@)),
    {
        HueRequest {
            method: Method::Put,
            url: self.url_with_id("groups/", id, "/action"),
            body: Some(String::from_str(state)),
        }
    }

    /// Deletes the specified group.
    pub fn delete_group(&self, id: usize) -> (r: HueRequest)
        ensures
            self.plans(r, Method::Delete, "groups/"@ + decimal(id as nat), None),
    {
        HueRequest { method: Method::Delete, url: self.url_ending_in_id("groups/", id), body: None }
    }

    // CONFIGURATION

    /// Returns detailed information about the configuration of the bridge.
    pub fn get_configuration(&self) -> (r: HueRequest)
        ensures
            self.plans(r, Method::Get, "config"@, None),
    {
        HueRequest { method: Method::Get, url: self.url("config"), body: None }
    }

    /// Sets some configuration values; `command` is the encoded modifier.
    pub fn modify_configuration(&self, command: &str) -> (r: HueRequest)
        ensures
            self.plans(r, Method::Put, "config"@, Some(command@)),
    {
        HueRequest { method: Method::Put, url: self.url("config"), body: Some(String::from_str(command)) }
    }

    /// Deletes the specified user, removing them from the whitelist.
    pub fn delete_user(&self, username: &str) -> (r: HueRequest)
        ensures
            self.plans(r, Method::Delete, "config/whitelist/"@ + username@, None),
    {
        HueRequest {
            method: Method::Delete,
            url: self.url_ending_in_name("config/whitelist/", username),
            body: None,
        }
    }

    /// Fetches the entire datastore from the bridge.
    pub fn get_full_state(&self) -> (r: HueRequest)
        ensures
            r.method == Method::Get,
            r.url@ == base_url(self.address(), self.credential()),
            r.body is None,
    {
        proof {
            reveal_strlit("");
        }
        let url = self.url("");
        proof {
            assert(url@ =~= base_url(self.address(), self.credential()));
        }
        HueRequest { method: Method::Get, url, body: None }
    }

    /// Sets the lights of the group that are also in the scene to the
    /// scene's state.
    pub fn recall_scene_in_group(&self, group_id: usize, scene_id: &str) -> (r: HueRequest)
        ensures
            self.plans(
                r,
                Method::Put,
                "groups/"@ + decimal(group_id as nat) + "/action"@,
                Some(string_member_object("scene"@, scene_id@)),
            ),
    {
        let body = string_member_body("scene", scene_id);
        HueRequest {
            method: Method::Put,
            url: self.url_with_id("groups/", group_id, "/action"),
            body: Some(body),
        }
    }

    // SCENES

    /// Gets all scenes of the bridge.
    pub fn get_all_scenes(&self) -> (r: HueRequest)
        ensures
            self.plans(r, Method::Get, "scenes"@, None),
    {
        HueRequest { method: Method::Get, url: self.url("scenes"), body: None }
    }

    /// Creates a scene; `scene` is the encoded scene. The bridge answers
    /// with the ID of the scene.
    pub fn create_scene(&self, scene: &str) -> (r: HueRequest)
        ensures
            self.plans(r, Method::Post, "scenes"@, Some(scene@)),
    {
        HueRequest { method: Method::Post, url: self.url("scenes"), body: Some(String::from_str(scene)) }
    }

    /// Sets general things in the specified scene; `scene` is the encoded
    /// modifier.
    pub fn modify_scene(&self, id: &str, scene: &str) -> (r: HueRequest)
        ensures
            self.plans(r, Method::Put, "scenes/"@ + id@, Some(scene@)),
    {
        HueRequest {
            method: Method::Put,
            url: self.url_ending_in_name("scenes/", id),
            body: Some(String::from_str(scene)),
        }
    }

    /// Sets the state that the scene stores for one light; `state` is the
    /// encoded state change.
    pub fn set_light_state_in_scene(&self, scene_id: &str, light_id: usize, state: &str) -> (r:
        HueRequest)
        ensures
            self.plans(
                r,
                Method::Put,
                "scenes/"@ + scene_id@ + "/lightstates/"@ + decimal(light_id as nat),
                Some(state@),
            ),
    {
        let mut url = self.url_with_name("scenes/", scene_id, "/lightstates/");
        push_decimal(&mut url, light_id);
        proof {
            assert(url@ =~= self.url_of(
                "scenes/"@ + scene_id@ + "/lightstates/"@ + decimal(light_id as nat),
            ));
        }
        HueRequest { method: Method::Put, url, body: Some(String::from_str(state)) }
    }

    /// Deletes the specified scene.
    pub fn delete_scene(&self, id: &str) -> (r: HueRequest)
        ensures
            self.plans(r, Method::Delete, "scenes/"@ + id@, None),
    {
        HueRequest { method: Method::Delete, url: self.url_ending_in_name("scenes/", id), body: None }
    }

    /// Gets the scene with the specified ID, with its light states.
    pub fn get_scene_with_states(&self, id: &str) -> (r: HueRequest)
        ensures
            self.plans(r, Method::Get, "scenes/"@ + id@, None),
    {
        HueRequest { method: Method::Get, url: self.url_ending_in_name("scenes/", id), body: None }
    }
}

} // verus!
